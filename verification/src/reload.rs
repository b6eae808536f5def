//! Bootstrap script generator: the development-only live-reload
//! snippet. In production (watch mode absent) the generator returns the
//! empty string; in watch mode it emits a `<script>` block that inlines
//! the client-side patch helper and opens a WebSocket to the reload
//! channel.

use vstd::prelude::*;
use vstd::string::StringExecFns;

use crate::config::EnvSnapshot;
use crate::config::RenderOptions;
use crate::config::decimal_text;
use crate::config::resolved_host;
use crate::config::resolved_host_text;
use crate::config::resolved_port;
use crate::config::resolved_port_text;

verus! {

/// Text of the script up to the inlined patch-helper payload.
pub open spec fn reload_open_text() -> Seq<char> {
    r#"
                <script crossorigin="">(function () {
                    "#@
}

fn reload_open() -> (r: &'static str)
    ensures
        r@ == reload_open_text(),
{
    r#"
                <script crossorigin="">(function () {
                    "#
}

/// Text of the script between the payload and the WebSocket address.
pub open spec fn reload_mid_text() -> Seq<char> {
    r#"
                    var ws = new WebSocket('"#@
}

fn reload_mid() -> (r: &'static str)
    ensures
        r@ == reload_mid_text(),
{
    r#"
                    var ws = new WebSocket('"#
}

/// Text of the script after the WebSocket address: the message handler
/// (full reload, stylesheet hot-swap, view patch) and the close handler.
pub open spec fn reload_close_text() -> Seq<char> {
    r#"');
                    ws.onmessage = (ev) => {
                        let msg = JSON.parse(ev.data);
                        if (msg.all) window.location.reload();
                        if (msg.css) {
                            let found = false;
                            document.querySelectorAll("link").forEach((link) => {
                                if (link.getAttribute('href').includes(msg.css)) {
                                    let newHref = '/' + msg.css + '?version=' + new Date().getMilliseconds();
                                    link.setAttribute('href', newHref);
                                    found = true;
                                }
                            });
                            if (!found) console.warn(`CSS hot-reload: Could not find a <link href=/\"${msg.css}\"> element`);
                        };
                        if(msg.view) {
                            patch(msg.view);
                        }
                    };
                    ws.onclose = () => console.warn('Live-reload stopped. Manual reload necessary.');
                })()
                </script>
                "#@
}

fn reload_close() -> (r: &'static str)
    ensures
        r@ == reload_close_text(),
{
    r#"');
                    ws.onmessage = (ev) => {
                        let msg = JSON.parse(ev.data);
                        if (msg.all) window.location.reload();
                        if (msg.css) {
                            let found = false;
                            document.querySelectorAll("link").forEach((link) => {
                                if (link.getAttribute('href').includes(msg.css)) {
                                    let newHref = '/' + msg.css + '?version=' + new Date().getMilliseconds();
                                    link.setAttribute('href', newHref);
                                    found = true;
                                }
                            });
                            if (!found) console.warn(`CSS hot-reload: Could not find a <link href=/\"${msg.css}\"> element`);
                        };
                        if(msg.view) {
                            patch(msg.view);
                        }
                    };
                    ws.onclose = () => console.warn('Live-reload stopped. Manual reload necessary.');
                })()
                </script>
                "#
}

/// The WebSocket address the reload client connects to.
pub open spec fn ws_url_text(host: Seq<char>, port: Seq<char>) -> Seq<char> {
    "ws://"@ + host + ":"@ + port + "/live_reload"@
}

/// The complete live-reload script for a given patch-helper payload,
/// host and port.
pub open spec fn reload_script_text(payload: Seq<char>, host: Seq<char>, port: Seq<char>) -> Seq<
    char,
> {
    reload_open_text() + payload + reload_mid_text() + "ws://"@ + host + ":"@ + port
        + "/live_reload"@ + reload_close_text()
}

/// What the bootstrap script generator emits: the script when watch
/// mode is active, addressed at the resolved host and port, and the
/// empty string otherwise.
pub open spec fn reload_fragment_text(
    payload: Seq<char>,
    env: EnvSnapshot,
    opts: RenderOptions,
) -> Seq<char> {
    if env.watch_mode {
        reload_script_text(payload, resolved_host_text(env, opts), resolved_port_text(env, opts))
    } else {
        Seq::empty()
    }
}

/// Builds the live-reload snippet around a given patch-helper payload.
pub fn live_reload_script_with(payload: &str, env: &EnvSnapshot, opts: &RenderOptions) -> (r:
    String)
    ensures
        r@ == reload_fragment_text(payload@, *env, *opts),
{
    if env.watch_mode {
        let mut s = reload_open().to_owned();
        s.append(payload);
        s.append(reload_mid());
        s.append("ws://");
        let host = resolved_host(env, opts);
        s.append(host.as_str());
        s.append(":");
        let port = resolved_port(env, opts);
        s.append(port.as_str());
        s.append("/live_reload");
        s.append(reload_close());
        s
    } else {
        String::new()
    }
}

/// Relies on `leptos_hot_reload::HOT_RELOAD_JS`: the fixed client-side
/// patch/hydration helper payload shipped by the build toolchain, here
/// only fetched and inlined into the live-reload script.
#[verifier::external_body]
fn hot_reload_payload() -> String {
    leptos_hot_reload::HOT_RELOAD_JS.to_string()
}

/// Produces the live-reload snippet, or the empty string when watch
/// mode is absent. The inlined payload comes from the build toolchain,
/// so in watch mode the result is pinned only up to that payload.
pub fn live_reload_script(env: &EnvSnapshot, opts: &RenderOptions) -> (r: String)
    ensures
        !env.watch_mode ==> r@ == Seq::<char>::empty(),
        env.watch_mode ==> exists|payload: Seq<char>|
            r@ == reload_fragment_text(payload, *env, *opts),
{
    if env.watch_mode {
        let payload = hot_reload_payload();
        let r = live_reload_script_with(payload.as_str(), env, opts);
        proof {
            assert(r@ == reload_fragment_text(payload@, *env, *opts));
        }
        r
    } else {
        String::new()
    }
}

/// Watch-mode address law: the emitted script embeds the WebSocket
/// address `ws://{host}:{port}/live_reload`, where the host is the
/// external-hostname override when present and otherwise the configured
/// site host, and the port is the external-port override when present
/// and otherwise the configured reload port in decimal.
pub proof fn lemma_reload_socket_address(payload: Seq<char>, env: EnvSnapshot, opts: RenderOptions)
    requires
        env.watch_mode,
    ensures
        reload_fragment_text(payload, env, opts) == (reload_open_text() + payload
            + reload_mid_text()) + ws_url_text(
            resolved_host_text(env, opts),
            resolved_port_text(env, opts),
        ) + reload_close_text(),
        env.external_host is None ==> resolved_host_text(env, opts) == opts.site_host@,
        env.external_host matches Some(h) ==> resolved_host_text(env, opts) == h@,
        env.external_port is None ==> resolved_port_text(env, opts) == decimal_text(
            opts.reload_port as nat,
        ),
        env.external_port matches Some(p) ==> resolved_port_text(env, opts) == p@,
{
    let host = resolved_host_text(env, opts);
    let port = resolved_port_text(env, opts);
    assert(reload_fragment_text(payload, env, opts) =~= (reload_open_text() + payload
        + reload_mid_text()) + ws_url_text(host, port) + reload_close_text());
}

} // verus!
