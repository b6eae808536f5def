//! Configuration inputs: the per-build render options and the per-request
//! snapshot of ambient environment state. The rest of the library is pure
//! in these values, so the only impure reads stay at the caller's edge.

use vstd::prelude::*;
use vstd::string::StringExecFns;

verus! {

/// Options fixed once per build and shared read-only across requests:
/// the address the server binds, the development reload port, the path
/// segment under which built client assets are served, and the base
/// filename (without extension) of the client bundle.
pub struct RenderOptions {
    /// Host portion of the address the server binds.
    pub site_host: String,
    /// Port portion of the address the server binds.
    pub site_port: u16,
    /// Port used by the development live-reload channel.
    pub reload_port: u32,
    /// Relative path segment under which built client assets are served.
    pub site_pkg_dir: String,
    /// Base filename, without extension, of the client bundle.
    pub output_name: String,
}

/// Snapshot of the ambient environment, resolved once per request and
/// passed as plain data. A missing override never fails: the builders
/// fall back to the configured defaults.
pub struct EnvSnapshot {
    /// Whether the watch-mode flag is present (any value enables it).
    pub watch_mode: bool,
    /// Externally visible hostname override, if set.
    pub external_host: Option<String>,
    /// Externally visible reload-port override, if set.
    pub external_port: Option<String>,
    /// Whether the bundle-name override was present at build time.
    pub output_name_set_at_build: bool,
    /// Whether the bundle-name override is present at request time.
    pub output_name_set_at_request: bool,
}

/// The character for one decimal digit.
pub open spec fn decimal_digit(d: int) -> char {
    if d == 0 {
        '0'
    } else if d == 1 {
        '1'
    } else if d == 2 {
        '2'
    } else if d == 3 {
        '3'
    } else if d == 4 {
        '4'
    } else if d == 5 {
        '5'
    } else if d == 6 {
        '6'
    } else if d == 7 {
        '7'
    } else if d == 8 {
        '8'
    } else {
        '9'
    }
}

/// The usual decimal rendering of a natural number, without leading
/// zeros (except for zero itself).
pub open spec fn decimal_text(n: nat) -> Seq<char>
    decreases n,
{
    if n < 10 {
        seq![decimal_digit(n as int)]
    } else {
        decimal_text(n / 10) + seq![decimal_digit((n % 10) as int)]
    }
}

fn digit_string(d: u32) -> (r: &'static str)
    requires
        d < 10,
    ensures
        r@ == seq![decimal_digit(d as int)],
{
    proof {
        reveal_strlit("0");
        reveal_strlit("1");
        reveal_strlit("2");
        reveal_strlit("3");
        reveal_strlit("4");
        reveal_strlit("5");
        reveal_strlit("6");
        reveal_strlit("7");
        reveal_strlit("8");
        reveal_strlit("9");
    }
    match d {
        0 => "0",
        1 => "1",
        2 => "2",
        3 => "3",
        4 => "4",
        5 => "5",
        6 => "6",
        7 => "7",
        8 => "8",
        _ => "9",
    }
}

/// Renders a number in decimal, as used for the reload port when no
/// override is present.
pub fn decimal_string(n: u32) -> (r: String)
    ensures
        r@ == decimal_text(n as nat),
    decreases n,
{
    if n < 10 {
        let d = digit_string(n);
        d.to_owned()
    } else {
        proof {
            assert(n / 10 < n) by (nonlinear_arith)
                requires
                    n >= 10,
            ;
        }
        let mut s = decimal_string(n / 10);
        let d = digit_string(n % 10);
        s.append(d);
        s
    }
}

/// The externally visible host: the override when present, otherwise
/// the host the server binds.
pub open spec fn resolved_host_text(env: EnvSnapshot, opts: RenderOptions) -> Seq<char> {
    match env.external_host {
        Some(h) => h@,
        None => opts.site_host@,
    }
}

/// The externally visible reload port, as text: the override when
/// present, otherwise the configured reload port in decimal.
pub open spec fn resolved_port_text(env: EnvSnapshot, opts: RenderOptions) -> Seq<char> {
    match env.external_port {
        Some(p) => p@,
        None => decimal_text(opts.reload_port as nat),
    }
}

/// Resolves the externally visible host.
pub fn resolved_host(env: &EnvSnapshot, opts: &RenderOptions) -> (r: String)
    ensures
        r@ == resolved_host_text(*env, *opts),
{
    match &env.external_host {
        Some(h) => h.clone(),
        None => opts.site_host.clone(),
    }
}

/// Resolves the externally visible reload port, as text.
pub fn resolved_port(env: &EnvSnapshot, opts: &RenderOptions) -> (r: String)
    ensures
        r@ == resolved_port_text(*env, *opts),
{
    match &env.external_port {
        Some(p) => p.clone(),
        None => decimal_string(opts.reload_port),
    }
}

} // verus!
