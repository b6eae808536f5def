//! Document shell builder: the `(head, tail)` string pair framing the
//! rendered body. The combined variant is for responses whose metadata
//! is not collected out of band; the separated variant splices the
//! dehydrated metadata into `<head>` before the bundle-loading script,
//! so that tags such as stylesheet links are present before the module
//! script executes.

use vstd::prelude::*;
use vstd::string::StringExecFns;

use crate::config::EnvSnapshot;
use crate::config::RenderOptions;
use crate::metadata::MetadataSnapshot;
use crate::metadata::dehydrated_string;
use crate::metadata::dehydrated_text;
use crate::metadata::html_attributes_string;
use crate::metadata::html_attributes_text;
use crate::reload::live_reload_script;
use crate::reload::reload_fragment_text;

verus! {

/// Doctype and the opening of the `<html>` tag, up to the merged
/// attribute string.
pub open spec fn doc_open_text() -> Seq<char> {
    r#"<!DOCTYPE html>
            <html"#@
}

fn doc_open() -> (r: &'static str)
    ensures
        r@ == doc_open_text(),
{
    r#"<!DOCTYPE html>
            <html"#
}

/// Close of the `<html>` tag, opening of `<head>`, and the charset and
/// viewport meta tags.
pub open spec fn head_meta_text() -> Seq<char> {
    r#">
                <head>
                    <meta charset="utf-8"/>
                    <meta name="viewport" content="width=device-width, initial-scale=1"/>"#@
}

fn head_meta() -> (r: &'static str)
    ensures
        r@ == head_meta_text(),
{
    r#">
                <head>
                    <meta charset="utf-8"/>
                    <meta name="viewport" content="width=device-width, initial-scale=1"/>"#
}

/// Opening of the modulepreload link for the bundle loader.
pub open spec fn link_pre_text() -> Seq<char> {
    r#"
                    <link rel="modulepreload" href="/"#@
}

fn link_pre() -> (r: &'static str)
    ensures
        r@ == link_pre_text(),
{
    r#"
                    <link rel="modulepreload" href="/"#
}

/// End of the modulepreload link and opening of the WebAssembly
/// preload link.
pub open spec fn link_mid_text() -> Seq<char> {
    r#".js">
                    <link rel="preload" href="/"#@
}

fn link_mid() -> (r: &'static str)
    ensures
        r@ == link_mid_text(),
{
    r#".js">
                    <link rel="preload" href="/"#
}

/// End of the WebAssembly preload link and opening of the module
/// bootstrap script, up to the loader import path.
pub open spec fn script_pre_text() -> Seq<char> {
    r#".wasm" as="fetch" type="application/wasm" crossorigin="">
                    <script type="module">import init, { hydrate } from '/"#@
}

fn script_pre() -> (r: &'static str)
    ensures
        r@ == script_pre_text(),
{
    r#".wasm" as="fetch" type="application/wasm" crossorigin="">
                    <script type="module">import init, { hydrate } from '/"#
}

/// Middle of the module bootstrap script, between the loader import
/// path and the WebAssembly artifact path handed to `init`.
pub open spec fn script_mid_text() -> Seq<char> {
    ".js'; init('/"@
}

fn script_mid() -> (r: &'static str)
    ensures
        r@ == script_mid_text(),
{
    ".js'; init('/"
}

/// End of the module bootstrap script: `init` chained into `hydrate`.
pub open spec fn script_post_text() -> Seq<char> {
    r#".wasm').then(hydrate);</script>
                    "#@
}

fn script_post() -> (r: &'static str)
    ensures
        r@ == script_post_text(),
{
    r#".wasm').then(hydrate);</script>
                    "#
}

/// Fixed tail closing the body and the document.
pub open spec fn tail_text() -> Seq<char> {
    "</body></html>"@
}

/// Name of the WebAssembly artifact: the bundle name as configured when
/// the build-output-name override is set, otherwise with the packing
/// tool's conventional suffix appended.
pub open spec fn wasm_name_text(output_name: Seq<char>, override_set: bool) -> Seq<char> {
    if override_set {
        output_name
    } else {
        output_name + "_bg"@
    }
}

/// Computes the WebAssembly artifact name from the bundle name.
pub fn wasm_output_name(output_name: &str, override_set: bool) -> (r: String)
    ensures
        r@ == wasm_name_text(output_name@, override_set),
{
    let mut n = output_name.to_owned();
    if !override_set {
        n.append("_bg");
    }
    n
}

/// WebAssembly artifact law: with the override unset the artifact file
/// name is the bundle name with `_bg` and the `.wasm` extension; with
/// the override set it is the bundle name with the extension alone.
pub proof fn lemma_wasm_artifact_name(output_name: Seq<char>)
    ensures
        wasm_name_text(output_name, false) + ".wasm"@ == output_name + "_bg.wasm"@,
        wasm_name_text(output_name, true) + ".wasm"@ == output_name + ".wasm"@,
{
    reveal_strlit("_bg");
    reveal_strlit(".wasm");
    reveal_strlit("_bg.wasm");
    assert(wasm_name_text(output_name, false) + ".wasm"@ =~= output_name + "_bg.wasm"@);
}

/// Head of the combined variant: no dehydrated metadata is spliced in,
/// and the artifact name goes by the build-time override.
pub open spec fn combined_head_text(
    opts: RenderOptions,
    env: EnvSnapshot,
    meta: Option<MetadataSnapshot>,
    reload: Seq<char>,
) -> Seq<char> {
    let pkg = opts.site_pkg_dir@;
    let out = opts.output_name@;
    let wasm = wasm_name_text(out, env.output_name_set_at_build);
    doc_open_text() + html_attributes_text(meta) + head_meta_text() + link_pre_text() + pkg + "/"@
        + out + link_mid_text() + pkg + "/"@ + wasm + script_pre_text() + pkg + "/"@ + out
        + script_mid_text() + pkg + "/"@ + wasm + script_post_text() + reload + "\n                    "@
}

/// Head of the separated variant: the dehydrated metadata stands after
/// the viewport meta tag and before the preload links and module
/// script, and the artifact name goes by the request-time override.
pub open spec fn separated_head_text(
    opts: RenderOptions,
    env: EnvSnapshot,
    meta: Option<MetadataSnapshot>,
    reload: Seq<char>,
) -> Seq<char> {
    let pkg = opts.site_pkg_dir@;
    let out = opts.output_name@;
    let wasm = wasm_name_text(out, env.output_name_set_at_request);
    doc_open_text() + html_attributes_text(meta) + head_meta_text() + "\n                    "@
        + dehydrated_text(meta) + link_pre_text() + pkg + "/"@ + out + link_mid_text() + pkg + "/"@
        + wasm + script_pre_text() + pkg + "/"@ + out + script_mid_text() + pkg + "/"@ + wasm
        + script_post_text() + reload + "\n                    "@
}

/// Builds the combined head around a given live-reload fragment.
pub fn html_parts_with(
    opts: &RenderOptions,
    env: &EnvSnapshot,
    meta: &Option<MetadataSnapshot>,
    reload: &str,
) -> (r: (String, &'static str))
    ensures
        r.0@ == combined_head_text(*opts, *env, *meta, reload@),
        r.1@ == tail_text(),
{
    let wasm = wasm_output_name(opts.output_name.as_str(), env.output_name_set_at_build);
    let attrs = html_attributes_string(meta);
    let mut h = doc_open().to_owned();
    h.append(attrs.as_str());
    h.append(head_meta());
    h.append(link_pre());
    h.append(opts.site_pkg_dir.as_str());
    h.append("/");
    h.append(opts.output_name.as_str());
    h.append(link_mid());
    h.append(opts.site_pkg_dir.as_str());
    h.append("/");
    h.append(wasm.as_str());
    h.append(script_pre());
    h.append(opts.site_pkg_dir.as_str());
    h.append("/");
    h.append(opts.output_name.as_str());
    h.append(script_mid());
    h.append(opts.site_pkg_dir.as_str());
    h.append("/");
    h.append(wasm.as_str());
    h.append(script_post());
    h.append(reload);
    h.append("\n                    ");
    (h, "</body></html>")
}

/// Builds the separated head around a given live-reload fragment.
pub fn html_parts_separated_with(
    opts: &RenderOptions,
    env: &EnvSnapshot,
    meta: &Option<MetadataSnapshot>,
    reload: &str,
) -> (r: (String, &'static str))
    ensures
        r.0@ == separated_head_text(*opts, *env, *meta, reload@),
        r.1@ == tail_text(),
{
    let wasm = wasm_output_name(opts.output_name.as_str(), env.output_name_set_at_request);
    let attrs = html_attributes_string(meta);
    let dehydrated = dehydrated_string(meta);
    let mut h = doc_open().to_owned();
    h.append(attrs.as_str());
    h.append(head_meta());
    h.append("\n                    ");
    h.append(dehydrated.as_str());
    h.append(link_pre());
    h.append(opts.site_pkg_dir.as_str());
    h.append("/");
    h.append(opts.output_name.as_str());
    h.append(link_mid());
    h.append(opts.site_pkg_dir.as_str());
    h.append("/");
    h.append(wasm.as_str());
    h.append(script_pre());
    h.append(opts.site_pkg_dir.as_str());
    h.append("/");
    h.append(opts.output_name.as_str());
    h.append(script_mid());
    h.append(opts.site_pkg_dir.as_str());
    h.append("/");
    h.append(wasm.as_str());
    h.append(script_post());
    h.append(reload);
    h.append("\n                    ");
    (h, "</body></html>")
}

/// Produces the combined `(head, tail)` pair. The live-reload fragment
/// inlines a payload supplied by the build toolchain, so the head is
/// pinned up to that payload; with watch mode absent it is pinned
/// exactly, with the empty fragment in the reload slot.
pub fn html_parts(opts: &RenderOptions, env: &EnvSnapshot, meta: &Option<MetadataSnapshot>) -> (r:
    (String, &'static str))
    ensures
        exists|payload: Seq<char>|
            r.0@ == combined_head_text(
                *opts,
                *env,
                *meta,
                reload_fragment_text(payload, *env, *opts),
            ),
        !env.watch_mode ==> r.0@ == combined_head_text(*opts, *env, *meta, Seq::<char>::empty()),
        r.1@ == tail_text(),
{
    let reload = live_reload_script(env, opts);
    let r = html_parts_with(opts, env, meta, reload.as_str());
    proof {
        if env.watch_mode {
            let payload = choose|payload: Seq<char>|
                reload@ == reload_fragment_text(payload, *env, *opts);
            assert(r.0@ == combined_head_text(
                *opts,
                *env,
                *meta,
                reload_fragment_text(payload, *env, *opts),
            ));
        } else {
            assert(reload@ == reload_fragment_text(Seq::<char>::empty(), *env, *opts));
            assert(r.0@ == combined_head_text(
                *opts,
                *env,
                *meta,
                reload_fragment_text(Seq::<char>::empty(), *env, *opts),
            ));
        }
    }
    r
}

/// Produces the separated `(head, tail)` pair, with the dehydrated
/// metadata spliced in before the bundle-loading block.
pub fn html_parts_separated(
    opts: &RenderOptions,
    env: &EnvSnapshot,
    meta: &Option<MetadataSnapshot>,
) -> (r: (String, &'static str))
    ensures
        exists|payload: Seq<char>|
            r.0@ == separated_head_text(
                *opts,
                *env,
                *meta,
                reload_fragment_text(payload, *env, *opts),
            ),
        !env.watch_mode ==> r.0@ == separated_head_text(*opts, *env, *meta, Seq::<char>::empty()),
        r.1@ == tail_text(),
{
    let reload = live_reload_script(env, opts);
    let r = html_parts_separated_with(opts, env, meta, reload.as_str());
    proof {
        if env.watch_mode {
            let payload = choose|payload: Seq<char>|
                reload@ == reload_fragment_text(payload, *env, *opts);
            assert(r.0@ == separated_head_text(
                *opts,
                *env,
                *meta,
                reload_fragment_text(payload, *env, *opts),
            ));
        } else {
            assert(reload@ == reload_fragment_text(Seq::<char>::empty(), *env, *opts));
            assert(r.0@ == separated_head_text(
                *opts,
                *env,
                *meta,
                reload_fragment_text(Seq::<char>::empty(), *env, *opts),
            ));
        }
    }
    r
}

/// The preload and bootstrap block of the head: loader preload link,
/// WebAssembly preload link, module script, live-reload fragment and
/// trailing indentation.
pub open spec fn bootstrap_block_text(
    pkg: Seq<char>,
    out: Seq<char>,
    wasm: Seq<char>,
    reload: Seq<char>,
) -> Seq<char> {
    link_pre_text() + pkg + "/"@ + out + link_mid_text() + pkg + "/"@ + wasm + script_pre_text()
        + pkg + "/"@ + out + script_mid_text() + pkg + "/"@ + wasm + script_post_text() + reload
        + "\n                    "@
}

/// Well-formedness law of the combined head: it opens with the
/// doctype, and it splits into the document opening (doctype, `<html>`
/// tag with the merged attributes, `<head>` opening and meta tags)
/// followed by the preload/bootstrap block.
pub proof fn lemma_combined_head_structure(
    opts: RenderOptions,
    env: EnvSnapshot,
    meta: Option<MetadataSnapshot>,
    reload: Seq<char>,
)
    ensures
        combined_head_text(opts, env, meta, reload) == (doc_open_text() + html_attributes_text(
            meta,
        ) + head_meta_text()) + bootstrap_block_text(
            opts.site_pkg_dir@,
            opts.output_name@,
            wasm_name_text(opts.output_name@, env.output_name_set_at_build),
            reload,
        ),
        combined_head_text(opts, env, meta, reload).subrange(
            0,
            doc_open_text().len() as int,
        ) == doc_open_text(),
{
    assert(combined_head_text(opts, env, meta, reload) =~= (doc_open_text()
        + html_attributes_text(meta) + head_meta_text()) + bootstrap_block_text(
        opts.site_pkg_dir@,
        opts.output_name@,
        wasm_name_text(opts.output_name@, env.output_name_set_at_build),
        reload,
    ));
    assert(combined_head_text(opts, env, meta, reload).subrange(0, doc_open_text().len() as int)
        =~= doc_open_text());
}

/// Well-formedness law of the separated head: it opens with the
/// doctype, and it splits into the document opening, then the
/// dehydrated metadata, then the preload/bootstrap block — so the
/// dehydrated metadata stands strictly before the module bootstrap
/// script.
pub proof fn lemma_metadata_precedes_bootstrap(
    opts: RenderOptions,
    env: EnvSnapshot,
    meta: Option<MetadataSnapshot>,
    reload: Seq<char>,
)
    ensures
        separated_head_text(opts, env, meta, reload) == (doc_open_text() + html_attributes_text(
            meta,
        ) + head_meta_text() + "\n                    "@) + dehydrated_text(meta)
            + bootstrap_block_text(
            opts.site_pkg_dir@,
            opts.output_name@,
            wasm_name_text(opts.output_name@, env.output_name_set_at_request),
            reload,
        ),
        separated_head_text(opts, env, meta, reload).subrange(
            0,
            doc_open_text().len() as int,
        ) == doc_open_text(),
{
    assert(separated_head_text(opts, env, meta, reload) =~= (doc_open_text()
        + html_attributes_text(meta) + head_meta_text() + "\n                    "@)
        + dehydrated_text(meta) + bootstrap_block_text(
        opts.site_pkg_dir@,
        opts.output_name@,
        wasm_name_text(opts.output_name@, env.output_name_set_at_request),
        reload,
    ));
    assert(separated_head_text(opts, env, meta, reload).subrange(0, doc_open_text().len() as int)
        =~= doc_open_text());
}

} // verus!

