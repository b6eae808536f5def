//! Server-side HTML document assembly for a hydration-based rendering
//! system: builds the head/tail shell around a rendered body, merges
//! page metadata collected during rendering, optionally injects a
//! development-only live-reload client, and assembles the final
//! document once a streamed body has been fully drained.
pub mod config;
pub mod metadata;
pub mod reload;
pub mod response;
pub mod shell;
