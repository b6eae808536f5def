use leptos_integration_utils::config::{decimal_string, EnvSnapshot, RenderOptions};
use leptos_integration_utils::metadata::{MetadataSnapshot, RenderingContext};
use leptos_integration_utils::reload::{live_reload_script, live_reload_script_with};
use leptos_integration_utils::response::{build_async_response, collect_body};
use leptos_integration_utils::shell::{
    html_parts, html_parts_separated, wasm_output_name,
};

fn options() -> RenderOptions {
    RenderOptions {
        site_host: "127.0.0.1".to_string(),
        site_port: 3000,
        reload_port: 3001,
        site_pkg_dir: "pkg".to_string(),
        output_name: "app".to_string(),
    }
}

fn production_env() -> EnvSnapshot {
    EnvSnapshot {
        watch_mode: false,
        external_host: None,
        external_port: None,
        output_name_set_at_build: false,
        output_name_set_at_request: false,
    }
}

fn watch_env() -> EnvSnapshot {
    EnvSnapshot {
        watch_mode: true,
        external_host: None,
        external_port: None,
        output_name_set_at_build: false,
        output_name_set_at_request: false,
    }
}

#[test]
fn watch_mode_absent_yields_empty_script() {
    let script = live_reload_script(&production_env(), &options());
    assert_eq!(script, "");
    let script = live_reload_script_with("payload", &production_env(), &options());
    assert_eq!(script, "");
}

#[test]
fn reload_url_uses_configured_host_and_port() {
    let script = live_reload_script_with("/* helper */", &watch_env(), &options());
    assert!(script.contains("var ws = new WebSocket('ws://127.0.0.1:3001/live_reload');"));
    assert!(script.contains("/* helper */"));
    assert!(script.starts_with("\n                <script crossorigin=\"\">(function () {"));
    assert!(script.ends_with("</script>\n                "));
}

#[test]
fn reload_url_prefers_overrides() {
    let mut env = watch_env();
    env.external_host = Some("reload.example".to_string());
    env.external_port = Some("8888".to_string());
    let script = live_reload_script_with("x", &env, &options());
    assert!(script.contains("ws://reload.example:8888/live_reload"));
    assert!(!script.contains("ws://127.0.0.1:3001/live_reload"));
}

#[test]
fn reload_script_inlines_toolchain_payload() {
    let script = live_reload_script(&watch_env(), &options());
    assert!(script.contains(leptos_hot_reload::HOT_RELOAD_JS));
    assert!(script.contains("ws://127.0.0.1:3001/live_reload"));
}

#[test]
fn decimal_rendering_is_exact() {
    assert_eq!(decimal_string(0), "0");
    assert_eq!(decimal_string(7), "7");
    assert_eq!(decimal_string(10), "10");
    assert_eq!(decimal_string(3001), "3001");
    assert_eq!(decimal_string(u32::MAX), "4294967295");
}

#[test]
fn wasm_name_appends_suffix_without_override() {
    assert_eq!(wasm_output_name("app", false), "app_bg");
    assert_eq!(wasm_output_name("app", true), "app");
    assert_eq!(wasm_output_name("", false), "_bg");
}

#[test]
fn combined_head_references_bundle_paths() {
    let (head, tail) = html_parts(&options(), &production_env(), &None);
    assert!(head.starts_with("<!DOCTYPE html>"));
    assert!(head.contains("<link rel=\"modulepreload\" href=\"/pkg/app.js\">"));
    assert!(head.contains(
        "<link rel=\"preload\" href=\"/pkg/app_bg.wasm\" as=\"fetch\" \
         type=\"application/wasm\" crossorigin=\"\">"
    ));
    assert!(head.contains(
        "<script type=\"module\">import init, { hydrate } from '/pkg/app.js'; \
         init('/pkg/app_bg.wasm').then(hydrate);</script>"
    ));
    assert_eq!(tail, "</body></html>");
}

#[test]
fn wasm_suffix_override_is_resolved_per_variant() {
    let mut env = production_env();
    env.output_name_set_at_build = true;
    env.output_name_set_at_request = false;
    let (combined, _) = html_parts(&options(), &env, &None);
    assert!(combined.contains("/pkg/app.wasm"));
    assert!(!combined.contains("/pkg/app_bg.wasm"));
    let (separated, _) = html_parts_separated(&options(), &env, &None);
    assert!(separated.contains("/pkg/app_bg.wasm"));
}

#[test]
fn html_tag_carries_metadata_attributes() {
    let meta = Some(MetadataSnapshot {
        html_attributes: Some(" lang=\"en\"".to_string()),
        dehydrated: String::new(),
        body_attributes: None,
    });
    let (head, _) = html_parts(&options(), &production_env(), &meta);
    assert!(head.contains("<html lang=\"en\">"));
}

#[test]
fn dehydrated_metadata_precedes_bootstrap_script() {
    let meta = Some(MetadataSnapshot {
        html_attributes: None,
        dehydrated: "<title>My Page</title>".to_string(),
        body_attributes: None,
    });
    let (head, _) = html_parts_separated(&options(), &production_env(), &meta);
    let title_at = head.find("<title>My Page</title>").unwrap();
    let script_at = head.find("<script type=\"module\">").unwrap();
    assert!(title_at < script_at);
    let viewport_at = head.find("name=\"viewport\"").unwrap();
    assert!(viewport_at < title_at);
}

#[test]
fn combined_head_omits_dehydrated_metadata() {
    let meta = Some(MetadataSnapshot {
        html_attributes: None,
        dehydrated: "<title>My Page</title>".to_string(),
        body_attributes: None,
    });
    let (head, _) = html_parts(&options(), &production_env(), &meta);
    assert!(!head.contains("<title>My Page</title>"));
}

#[test]
fn body_fragments_join_in_order() {
    let chunks = vec!["<p>a</p>".to_string(), "<p>b</p>".to_string()];
    assert_eq!(collect_body(&chunks), "<p>a</p><p>b</p>");
    let empty: Vec<String> = vec![];
    assert_eq!(collect_body(&empty), "");
}

#[test]
fn dehydrate_twice_identical() {
    let snapshot = MetadataSnapshot {
        html_attributes: None,
        dehydrated: "<title>fixed</title><meta name=\"a\" content=\"b\">".to_string(),
        body_attributes: None,
    };
    let first = snapshot.dehydrate();
    let second = snapshot.dehydrate();
    assert_eq!(first, second);
}

#[test]
fn end_to_end_streamed_document() {
    let chunks = vec!["hello".to_string()];
    let cx = RenderingContext::new(0, 0, None, None);
    let doc = build_async_response(&chunks, &options(), &production_env(), cx);
    assert!(doc.starts_with("<!DOCTYPE html>"));
    assert!(doc.contains("href=\"/pkg/app.js\""));
    assert!(doc.contains("href=\"/pkg/app_bg.wasm\""));
    assert!(doc.contains("</head><body>hello</body></html>"));
    assert!(doc.ends_with("</body></html>"));
    assert!(!doc.contains("live_reload"));
    assert!(!doc.contains("<script crossorigin"));
}

#[test]
fn assembled_document_carries_final_metadata() {
    let skeleton = Some(MetadataSnapshot {
        html_attributes: None,
        dehydrated: "<title>early</title>".to_string(),
        body_attributes: None,
    });
    let resolved = Some(MetadataSnapshot {
        html_attributes: None,
        dehydrated: "<title>settled</title>".to_string(),
        body_attributes: Some(" class=\"dark\"".to_string()),
    });
    let chunks = vec!["<main>x</main>".to_string()];
    let cx = RenderingContext::new(7, 1, skeleton, resolved);
    let doc = build_async_response(&chunks, &options(), &production_env(), cx);
    // The shell is built from the skeleton read; the authoritative read
    // is spliced in just before </head>.
    assert!(doc.contains("<title>early</title>"));
    assert!(doc.contains("<title>settled</title></head><body class=\"dark\"><main>x</main>"));
    let early_at = doc.find("<title>early</title>").unwrap();
    let settled_at = doc.find("<title>settled</title>").unwrap();
    assert!(early_at < settled_at);
}
