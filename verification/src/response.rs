//! Streaming response assembler: concatenates the drained body
//! fragments in arrival order, builds the separated shell from the
//! skeleton metadata, splices in the authoritative metadata read after
//! the stream was exhausted, releases the rendering session, and
//! returns the complete document.
//!
//! Draining the stream itself is the caller's edge: the fragments
//! arrive here as a finished sequence, in arrival order.

use vstd::prelude::*;
use vstd::string::StringExecFns;

use crate::config::EnvSnapshot;
use crate::config::RenderOptions;
use crate::metadata::MetadataSnapshot;
use crate::metadata::RenderingContext;
use crate::metadata::body_attributes_string;
use crate::metadata::body_attributes_text;
use crate::metadata::dehydrated_string;
use crate::metadata::dehydrated_text;
use crate::reload::reload_fragment_text;
use crate::shell::html_parts_separated;
use crate::shell::separated_head_text;
use crate::shell::tail_text;

verus! {

/// The body fragments joined in order, with nothing dropped, reordered
/// or truncated.
pub open spec fn joined_text(chunks: Seq<String>) -> Seq<char>
    decreases chunks.len(),
{
    if chunks.len() == 0 {
        Seq::empty()
    } else {
        joined_text(chunks.drop_last()) + chunks.last()@
    }
}

/// Concatenates the drained body fragments in arrival order.
pub fn collect_body(chunks: &Vec<String>) -> (r: String)
    ensures
        r@ == joined_text(chunks@),
{
    let mut buf = String::new();
    let mut i: usize = 0;
    while i < chunks.len()
        invariant
            i <= chunks.len(),
            buf@ == joined_text(chunks@.take(i as int)),
        decreases chunks.len() - i,
    {
        buf.append(chunks[i].as_str());
        proof {
            assert(chunks@.take(i + 1 as int).drop_last() =~= chunks@.take(i as int));
            assert(chunks@.take(i + 1 as int).last() == chunks@[i as int]);
        }
        i = i + 1;
    }
    proof {
        assert(chunks@.take(chunks@.len() as int) =~= chunks@);
    }
    buf
}

/// The complete document: separated head shell built over the skeleton
/// metadata, then the authoritative dehydrated head metadata, the close
/// of `<head>` and the `<body>` tag carrying the authoritative body
/// attributes, the joined body fragments, and the fixed tail.
pub open spec fn document_text(
    opts: RenderOptions,
    env: EnvSnapshot,
    skeleton: Option<MetadataSnapshot>,
    resolved: Option<MetadataSnapshot>,
    body: Seq<char>,
    reload: Seq<char>,
) -> Seq<char> {
    separated_head_text(opts, env, skeleton, reload) + dehydrated_text(resolved) + "</head><body"@
        + body_attributes_text(resolved) + ">"@ + body + tail_text()
}

/// Assembles the final document from the drained body fragments, the
/// render options, the environment snapshot and the rendering session.
///
/// The session handle is consumed: its metadata is read (skeleton state
/// for the shell, authoritative state for the spliced head metadata and
/// the body attributes) strictly before `dispose` takes the handle by
/// value, and no read after that point can be written.
pub fn build_async_response(
    chunks: &Vec<String>,
    opts: &RenderOptions,
    env: &EnvSnapshot,
    cx: RenderingContext,
) -> (r: String)
    ensures
        exists|payload: Seq<char>|
            r@ == document_text(
                *opts,
                *env,
                cx.skeleton,
                cx.resolved,
                joined_text(chunks@),
                reload_fragment_text(payload, *env, *opts),
            ),
        !env.watch_mode ==> r@ == document_text(
            *opts,
            *env,
            cx.skeleton,
            cx.resolved,
            joined_text(chunks@),
            Seq::<char>::empty(),
        ),
{
    let buf = collect_body(chunks);
    let (head, tail) = html_parts_separated(opts, env, cx.skeleton_metadata());
    let ghost head0 = head@;

    // The authoritative metadata reads, deferred until after the
    // stream is exhausted so that tags registered by late-resolving
    // subtrees are included.
    let head_meta = dehydrated_string(cx.final_metadata());
    let body_meta = body_attributes_string(cx.final_metadata());

    cx.dispose();

    let mut doc = head;
    doc.append(head_meta.as_str());
    doc.append("</head><body");
    doc.append(body_meta.as_str());
    doc.append(">");
    doc.append(buf.as_str());
    doc.append(tail);
    proof {
        if env.watch_mode {
            let payload = choose|payload: Seq<char>|
                head0 == separated_head_text(
                    *opts,
                    *env,
                    cx.skeleton,
                    reload_fragment_text(payload, *env, *opts),
                );
            assert(doc@ == document_text(
                *opts,
                *env,
                cx.skeleton,
                cx.resolved,
                joined_text(chunks@),
                reload_fragment_text(payload, *env, *opts),
            ));
        } else {
            assert(head0 == separated_head_text(
                *opts,
                *env,
                cx.skeleton,
                reload_fragment_text(Seq::<char>::empty(), *env, *opts),
            ));
            assert(doc@ == document_text(
                *opts,
                *env,
                cx.skeleton,
                cx.resolved,
                joined_text(chunks@),
                reload_fragment_text(Seq::<char>::empty(), *env, *opts),
            ));
        }
    }
    doc
}

} // verus!
