//! Page metadata collected out of band during rendering, and the
//! rendering-session handle whose metadata this library reads.
//!
//! The rendering engine collects head tags and body attributes while the
//! component tree renders. This library consumes that state as a plain
//! snapshot: the attribute string for the `<html>` tag, the dehydrated
//! head fragment, and the attribute string for the `<body>` tag.

use vstd::prelude::*;

verus! {

/// The metadata state of one rendering session at a single point in
/// time. Absent parts read as empty strings.
pub struct MetadataSnapshot {
    /// Attribute string merged into the `<html>` tag, if any.
    pub html_attributes: Option<String>,
    /// Serialized fragment of the head metadata collected so far.
    pub dehydrated: String,
    /// Attribute string merged onto the `<body>` tag, if any.
    pub body_attributes: Option<String>,
}

/// The `<html>` attribute string of an optional snapshot; empty when
/// the snapshot or the attribute string is absent.
pub open spec fn html_attributes_text(m: Option<MetadataSnapshot>) -> Seq<char> {
    match m {
        Some(s) => match s.html_attributes {
            Some(a) => a@,
            None => Seq::empty(),
        },
        None => Seq::empty(),
    }
}

/// The dehydrated head fragment of an optional snapshot; empty when the
/// snapshot is absent.
pub open spec fn dehydrated_text(m: Option<MetadataSnapshot>) -> Seq<char> {
    match m {
        Some(s) => s.dehydrated@,
        None => Seq::empty(),
    }
}

/// The `<body>` attribute string of an optional snapshot; empty when
/// the snapshot or the attribute string is absent.
pub open spec fn body_attributes_text(m: Option<MetadataSnapshot>) -> Seq<char> {
    match m {
        Some(s) => match s.body_attributes {
            Some(a) => a@,
            None => Seq::empty(),
        },
        None => Seq::empty(),
    }
}

impl MetadataSnapshot {
    /// Serializes the head metadata collected so far. The result is a
    /// function of the snapshot alone, so repeated calls with no
    /// mutation in between return identical fragments.
    pub fn dehydrate(&self) -> (r: String)
        ensures
            r@ == self.dehydrated@,
    {
        self.dehydrated.clone()
    }
}

/// Reads the `<html>` attribute string, falling back to empty.
pub fn html_attributes_string(m: &Option<MetadataSnapshot>) -> (r: String)
    ensures
        r@ == html_attributes_text(*m),
{
    match m {
        Some(s) => match &s.html_attributes {
            Some(a) => a.clone(),
            None => String::new(),
        },
        None => String::new(),
    }
}

/// Reads the dehydrated head fragment, falling back to empty.
pub fn dehydrated_string(m: &Option<MetadataSnapshot>) -> (r: String)
    ensures
        r@ == dehydrated_text(*m),
{
    match m {
        Some(s) => s.dehydrate(),
        None => String::new(),
    }
}

/// Reads the `<body>` attribute string, falling back to empty.
pub fn body_attributes_string(m: &Option<MetadataSnapshot>) -> (r: String)
    ensures
        r@ == body_attributes_text(*m),
{
    match m {
        Some(s) => match &s.body_attributes {
            Some(a) => a.clone(),
            None => String::new(),
        },
        None => String::new(),
    }
}

/// Dehydration is idempotent: two serializations of the same metadata
/// state, with no mutation in between, are identical. Each call's
/// result is pinned to the state by the contract of `dehydrate`, so any
/// two results of that contract coincide.
pub proof fn lemma_dehydrate_idempotent(
    m: Option<MetadataSnapshot>,
    first: Seq<char>,
    second: Seq<char>,
)
    requires
        first == dehydrated_text(m),
        second == dehydrated_text(m),
    ensures
        first == second,
{
}

/// Handle on one live rendering session: the identifier pair that names
/// the session, and the metadata state read from it at the two points
/// the assembler needs.
///
/// The handle is exclusively owned by the request that created it, and
/// `dispose` consumes it, so a read after disposal is not expressible:
/// release ordering is enforced by ownership rather than checked at run
/// time.
pub struct RenderingContext {
    /// Identifier of the runtime that owns the session.
    pub runtime_id: u64,
    /// Identifier of the session's scope within that runtime.
    pub scope_id: u64,
    /// Metadata state as read for the head skeleton.
    pub skeleton: Option<MetadataSnapshot>,
    /// Metadata state as read after all suspended subtrees resolved.
    pub resolved: Option<MetadataSnapshot>,
}

impl RenderingContext {
    /// Creates the handle for one session from its identifier pair and
    /// the two metadata reads.
    pub fn new(
        runtime_id: u64,
        scope_id: u64,
        skeleton: Option<MetadataSnapshot>,
        resolved: Option<MetadataSnapshot>,
    ) -> (r: RenderingContext)
        ensures
            r == (RenderingContext { runtime_id, scope_id, skeleton, resolved }),
    {
        RenderingContext { runtime_id, scope_id, skeleton, resolved }
    }

    /// The metadata state used for the head skeleton.
    pub fn skeleton_metadata(&self) -> (r: &Option<MetadataSnapshot>)
        ensures
            *r == self.skeleton,
    {
        &self.skeleton
    }

    /// The authoritative metadata state, read after the body stream is
    /// exhausted and all suspended subtrees have resolved.
    pub fn final_metadata(&self) -> (r: &Option<MetadataSnapshot>)
        ensures
            *r == self.resolved,
    {
        &self.resolved
    }

    /// Releases the session. Takes the handle by value: after disposal
    /// no further reads against it can be written, which makes a read
    /// after release a compile-time impossibility rather than a runtime
    /// hazard.
    pub fn dispose(self) {
    }
}

} // verus!
