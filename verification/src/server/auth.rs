//! Token authentication, Host checking and browser-facing CORS for the
//! localhost API.
//!
//! Threat model: the server only listens on 127.0.0.1, so the attackers
//! that remain are (a) arbitrary web pages running in the user's browser,
//! which can *send* requests to localhost, and (b) other local processes.
//! Both are handled by requiring a bearer token that only Ember (and the
//! app's own UI) has; CORS is defense in depth that additionally stops
//! browsers from *reading* responses for non-allowlisted origins; a
//! non-loopback `Host` header (DNS rebinding) is refused outright.
use crate::text::{
    chars_of, find_from, first_match, has_prefix, lemma_first_match, matches_at, same_text, starts_with, trim,
    trimmed_string,
};
use vstd::prelude::*;
use vstd::string::StringSliceAdditionalSpecFns;
use vstd::utf8::encode_utf8_decode_utf8;

verus! {

/// The one path reachable without a token: it lets Ember detect that the
/// bridge is installed before pairing, and exposes nothing but the app name
/// and version.
pub const HEALTH_PATH: &'static str = "/api/health";

/// `Access-Control-Allow-Methods` on preflight answers.
pub const ALLOW_METHODS: &'static str = "GET,POST,PUT,DELETE,OPTIONS";

/// `Access-Control-Allow-Headers` on preflight answers.
pub const ALLOW_HEADERS: &'static str = "authorization,content-type,x-ember-token,x-filename";

/// `Access-Control-Max-Age` on preflight answers, in seconds.
pub const MAX_AGE: &'static str = "600";

/// The path whose answers any origin may read (CORS): the health check.
pub open spec fn spec_is_public_path(path: Seq<char>) -> bool {
    path == "/api/health"@
}

/// Executable [`spec_is_public_path`].
pub fn is_public_path(path: &str) -> (r: bool)
    ensures
        r == spec_is_public_path(path@),
{
    same_text(path, HEALTH_PATH)
}

/// Paths reachable without a token: the health check and the browser side
/// of pairing (`/api/pair` and `/api/pair/{id}`), which is origin-gated
/// instead.
pub open spec fn spec_is_tokenless_path(path: Seq<char>) -> bool {
    spec_is_public_path(path) || path == "/api/pair"@ || has_prefix(path, "/api/pair/"@)
}

/// Executable [`spec_is_tokenless_path`].
pub fn is_tokenless_path(path: &str) -> (r: bool)
    ensures
        r == spec_is_tokenless_path(path@),
{
    if is_public_path(path) || same_text(path, "/api/pair") {
        return true;
    }
    let p = chars_of(path);
    let prefix = chars_of("/api/pair/");
    starts_with(&p, &prefix)
}

/// Length-safe constant-time comparison: every byte pair is looked at, so
/// a token check does not leak how long a matching prefix was.
pub fn constant_time_eq(a: &[u8], b: &[u8]) -> (r: bool)
    ensures
        r == (a@ == b@),
{
    if a.len() != b.len() {
        return false;
    }
    let mut acc: u8 = 0;
    let mut i: usize = 0;
    while i < a.len()
        invariant
            a.len() == b.len(),
            i <= a.len(),
            (acc == 0) <==> (forall|j: int| 0 <= j < i ==> a@[j] == b@[j]),
        decreases a.len() - i,
    {
        let x = a[i];
        let y = b[i];
        let d = x ^ y;
        assert(d == 0 <==> x == y) by (bit_vector)
            requires
                d == x ^ y,
        ;
        let next = acc | d;
        assert(next == 0 <==> (acc == 0 && d == 0)) by (bit_vector)
            requires
                next == acc | d,
        ;
        acc = next;
        i += 1;
    }
    if acc == 0 {
        assert(a@ =~= b@);
        true
    } else {
        false
    }
}

/// Two strings are equal exactly when their UTF-8 bytes are.
proof fn lemma_bytes_eq(a: &str, b: &str)
    ensures
        (a.spec_bytes() == b.spec_bytes()) == (a@ == b@),
{
    encode_utf8_decode_utf8(a@);
    encode_utf8_decode_utf8(b@);
}

/// The token of an `Authorization` value: what follows `Bearer ` (or
/// `bearer `), trimmed.
pub open spec fn spec_bearer_token(value: Seq<char>) -> Option<Seq<char>> {
    if has_prefix(value, "Bearer "@) {
        Some(trim(value.skip(7)))
    } else if has_prefix(value, "bearer "@) {
        Some(trim(value.skip(7)))
    } else {
        None
    }
}

/// Extract the bearer token from an `Authorization` header value.
pub fn bearer_token(value: &str) -> (r: Option<String>)
    ensures
        match r {
            Some(t) => spec_bearer_token(value@) == Some(t@),
            None => spec_bearer_token(value@) is None,
        },
{
    let v = chars_of(value);
    let upper = chars_of("Bearer ");
    let lower = chars_of("bearer ");
    proof {
        reveal_strlit("Bearer ");
        reveal_strlit("bearer ");
    }
    if starts_with(&v, &upper) || starts_with(&v, &lower) {
        assert(v@.subrange(7, v.len() as int) =~= v@.skip(7));
        Some(trimmed_string(&v, 7, v.len()))
    } else {
        None
    }
}

/// The token a request presents: the bearer token, else `X-Ember-Token`.
pub open spec fn spec_presented_token(authorization: Option<Seq<char>>, x_ember_token: Option<
    Seq<char>,
>) -> Option<Seq<char>> {
    match authorization {
        Some(v) => match spec_bearer_token(v) {
            Some(t) => Some(t),
            None => x_ember_token,
        },
        None => x_ember_token,
    }
}

/// The characters of an optional string slice.
pub open spec fn opt_str(o: Option<&str>) -> Option<Seq<char>> {
    match o {
        Some(s) => Some(s@),
        None => None,
    }
}

/// The request may proceed: the path needs no token, or it presents the
/// token.
pub open spec fn spec_authorized(
    path: Seq<char>,
    authorization: Option<Seq<char>>,
    x_ember_token: Option<Seq<char>>,
    expected: Seq<char>,
) -> bool {
    spec_is_tokenless_path(path) || spec_presented_token(authorization, x_ember_token) == Some(
        expected,
    )
}

/// Token check for one request. Header values are those the request
/// carried as visible ASCII (`None` when absent or not representable).
pub fn authorize(
    path: &str,
    authorization: Option<&str>,
    x_ember_token: Option<&str>,
    expected: &str,
) -> (r: bool)
    ensures
        r == spec_authorized(path@, opt_str(authorization), opt_str(x_ember_token), expected@),
{
    if is_tokenless_path(path) {
        return true;
    }
    let presented: Option<String> = match authorization {
        Some(v) => match bearer_token(v) {
            Some(t) => Some(t),
            None => match x_ember_token {
                Some(x) => Some(x.to_owned()),
                None => None,
            },
        },
        None => match x_ember_token {
            Some(x) => Some(x.to_owned()),
            None => None,
        },
    };
    match presented {
        Some(token) => {
            let t = token.as_str();
            proof {
                lemma_bytes_eq(t, expected);
            }
            constant_time_eq(t.as_bytes(), expected.as_bytes())
        },
        None => false,
    }
}

/// The host part of an origin like `https://host:port`, if it has an
/// `http://` or `https://` scheme.
pub open spec fn origin_host(origin: Seq<char>) -> Option<Seq<char>> {
    let rest = if has_prefix(origin, "http://"@) {
        Some(origin.skip(7))
    } else if has_prefix(origin, "https://"@) {
        Some(origin.skip(8))
    } else {
        None
    };
    match rest {
        Some(h) => match first_match(h, seq![':'], 0) {
            Some(i) => Some(h.take(i)),
            None => Some(h),
        },
        None => None,
    }
}

/// An origin is allowed if the allowlist holds it or `"*"`, if its host is
/// loopback (`localhost`, `127.0.0.1`) or the app's own webview
/// (`tauri.localhost`), or if it is the macOS/Linux webview origin
/// `tauri://localhost`.
pub open spec fn spec_origin_allowed(origin: Seq<char>, allowlist: Seq<Seq<char>>) -> bool {
    (exists|i: int|
        0 <= i < allowlist.len() && (#[trigger] allowlist[i] == "*"@ || allowlist[i] == origin))
        || (origin_host(origin) matches Some(h) && (h == "localhost"@ || h == "127.0.0.1"@ || h
        == "tauri.localhost"@)) || origin == "tauri://localhost"@
}

/// The first `:` of `a + ":" + rest` at or after `from` is the one after
/// `a`, when `a` holds none from `from` on.
proof fn lemma_first_colon(a: Seq<char>, rest: Seq<char>, from: int)
    requires
        0 <= from <= a.len(),
        forall|i: int| from <= i < a.len() ==> a[i] != ':',
    ensures
        first_match(a + seq![':'] + rest, seq![':'], from) == Some(a.len() as int),
    decreases a.len() - from,
{
    let h = a + seq![':'] + rest;
    if from == a.len() {
        assert(h.subrange(from, from + 1) =~= seq![':']);
    } else {
        assert(h[from] == a[from]);
        if matches_at(h, seq![':'], from) {
            assert(h.subrange(from, from + 1)[0] == h[from]);
        }
        lemma_first_colon(a, rest, from + 1);
    }
}

/// The host of `scheme + host + ":" + port` for a web scheme and a host
/// without `:` is that host.
proof fn lemma_origin_host_of(scheme: Seq<char>, h: Seq<char>, port: Seq<char>)
    requires
        scheme == "http://"@ || scheme == "https://"@,
        forall|i: int| 0 <= i < h.len() ==> h[i] != ':',
    ensures
        origin_host(scheme + (h + seq![':'] + port)) == Some(h),
{
    reveal_strlit("http://");
    reveal_strlit("https://");
    let o = scheme + (h + seq![':'] + port);
    lemma_first_colon(h, port, 0);
    if scheme == "http://"@ {
        assert(o.subrange(0, 7) =~= "http://"@);
        assert(o.skip(7) =~= h + seq![':'] + port);
    } else {
        assert(o.subrange(0, 7)[4] == 's');
        assert(o.subrange(0, 7) != "http://"@);
        assert(o.subrange(0, 8) =~= "https://"@);
        assert(o.skip(8) =~= h + seq![':'] + port);
    }
    assert((h + seq![':'] + port).take(h.len() as int) =~= h);
}

/// Loopback origins are allowed whatever the allowlist holds: a page
/// served from `localhost` or `127.0.0.1` on any port, over `http` or
/// `https`, and the app's own webview.
pub proof fn law_loopback_origins_always_allowed(allowlist: Seq<Seq<char>>, port: Seq<char>)
    ensures
        spec_origin_allowed("http://localhost:"@ + port, allowlist),
        spec_origin_allowed("https://localhost:"@ + port, allowlist),
        spec_origin_allowed("http://127.0.0.1:"@ + port, allowlist),
        spec_origin_allowed("https://127.0.0.1:"@ + port, allowlist),
        spec_origin_allowed("tauri://localhost"@, allowlist),
{
    reveal_strlit("http://");
    reveal_strlit("https://");
    reveal_strlit("localhost");
    reveal_strlit("127.0.0.1");
    reveal_strlit("http://localhost:");
    reveal_strlit("https://localhost:");
    reveal_strlit("http://127.0.0.1:");
    reveal_strlit("https://127.0.0.1:");
    let lh = "localhost"@;
    let ip = "127.0.0.1"@;
    assert forall|i: int| 0 <= i < lh.len() implies lh[i] != ':' by {}
    assert forall|i: int| 0 <= i < ip.len() implies ip[i] != ':' by {}
    lemma_origin_host_of("http://"@, lh, port);
    lemma_origin_host_of("https://"@, lh, port);
    lemma_origin_host_of("http://"@, ip, port);
    lemma_origin_host_of("https://"@, ip, port);
    assert("http://localhost:"@ + port =~= "http://"@ + (lh + seq![':'] + port));
    assert("https://localhost:"@ + port =~= "https://"@ + (lh + seq![':'] + port));
    assert("http://127.0.0.1:"@ + port =~= "http://"@ + (ip + seq![':'] + port));
    assert("https://127.0.0.1:"@ + port =~= "https://"@ + (ip + seq![':'] + port));
}

/// The characters of each string in a list.
pub open spec fn list_view(v: Seq<String>) -> Seq<Seq<char>> {
    v.map_values(|s: String| s@)
}

/// Is a browser origin allowed to read API responses?
pub fn origin_allowed(origin: &str, allowlist: &Vec<String>) -> (r: bool)
    ensures
        r == spec_origin_allowed(origin@, list_view(allowlist@)),
{
    let ghost al = list_view(allowlist@);
    let mut i: usize = 0;
    while i < allowlist.len()
        invariant
            i <= allowlist.len(),
            al == list_view(allowlist@),
            forall|j: int| 0 <= j < i ==> !(#[trigger] al[j] == "*"@ || al[j] == origin@),
        decreases allowlist.len() - i,
    {
        let a = allowlist[i].as_str();
        if same_text(a, "*") || same_text(a, origin) {
            assert(al[i as int] == "*"@ || al[i as int] == origin@);
            return true;
        }
        i += 1;
    }
    let v = chars_of(origin);
    let http = chars_of("http://");
    let https = chars_of("https://");
    proof {
        reveal_strlit("http://");
        reveal_strlit("https://");
    }
    let start: usize = if starts_with(&v, &http) {
        7
    } else if starts_with(&v, &https) {
        8
    } else {
        0
    };
    if start > 0 {
        let mut h: Vec<char> = Vec::new();
        let mut k = start;
        while k < v.len()
            invariant
                start <= k <= v.len(),
                h@ == v@.subrange(start as int, k as int),
            decreases v.len() - k,
        {
            h.push(v[k]);
            assert(h@ =~= v@.subrange(start as int, k + 1));
            k += 1;
        }
        assert(h@ =~= v@.skip(start as int));
        let colon = vec![':'];
        let end = match find_from(&h, &colon, 0) {
            Some(c) => {
                proof {
                    lemma_first_match(h@, colon@, 0);
                }
                c
            },
            None => h.len(),
        };
        let mut host = String::new();
        crate::text::push_range(&mut host, &h, 0, end);
        assert(h@.subrange(0, end as int) =~= h@.take(end as int));
        assert(colon@ =~= seq![':']);
        proof {
            if end == h.len() {
                assert(h@.take(end as int) =~= h@);
            }
        }
        let hs = host.as_str();
        if same_text(hs, "localhost") || same_text(hs, "127.0.0.1") || same_text(
            hs,
            "tauri.localhost",
        ) {
            return true;
        }
    }
    same_text(origin, "tauri://localhost")
}

/// The host name of a `Host` header value, without its port: `[v6]` keeps
/// its brackets.
pub open spec fn host_name(h: Seq<char>) -> Seq<char> {
    if h.len() > 0 && h[0] == '[' {
        match first_match(h, seq![']'], 0) {
            Some(i) => h.take(i + 1),
            None => h,
        }
    } else {
        match first_match(h, seq![':'], 0) {
            Some(i) => h.take(i),
            None => h,
        }
    }
}

/// The `Host` header names this machine's loopback interface (or is absent,
/// as for non-HTTP/1.1 in-process callers).
pub open spec fn spec_host_is_local(host: Option<Seq<char>>) -> bool {
    match host {
        None => true,
        Some(h) => {
            let n = host_name(h);
            n == "localhost"@ || n == "127.0.0.1"@ || n == "[::1]"@
        },
    }
}

/// DNS-rebinding guard: a page on a rebound name can bypass CORS but
/// cannot fake the `Host` header, so any non-loopback host is refused.
pub fn host_is_local(host: Option<&str>) -> (r: bool)
    ensures
        r == spec_host_is_local(opt_str(host)),
{
    match host {
        None => true,
        Some(h) => {
            let v = chars_of(h);
            let (stop, extra): (Vec<char>, usize) = if v.len() > 0 && v[0] == '[' {
                (vec![']'], 1)
            } else {
                (vec![':'], 0)
            };
            let end = match find_from(&v, &stop, 0) {
                Some(i) => {
                    proof {
                        lemma_first_match(v@, stop@, 0);
                    }
                    i + extra
                },
                None => v.len(),
            };
            let mut name = String::new();
            crate::text::push_range(&mut name, &v, 0, end);
            proof {
                assert(stop@ =~= seq![']'] || stop@ =~= seq![':']);
                if end == v.len() {
                    assert(v@.subrange(0, end as int) =~= v@);
                } else {
                    assert(v@.subrange(0, end as int) =~= v@.take(end as int));
                }
                if v.len() > 0 && v@[0] == '[' {
                    assert(stop@ =~= seq![']']);
                } else {
                    assert(stop@ =~= seq![':']);
                }
            }
            let n = name.as_str();
            same_text(n, "localhost") || same_text(n, "127.0.0.1") || same_text(n, "[::1]")
        },
    }
}

/// What the CORS layer does with one request.
#[derive(Debug, Clone, PartialEq, Eq)]
pub struct CorsDecision {
    /// Answer directly with 204 (a preflight), without running the handler.
    pub preflight: bool,
    /// Echo this origin in `Access-Control-Allow-Origin` (with
    /// `Vary: Origin`); `None` adds no CORS headers.
    pub allow_origin: Option<String>,
    /// Add `Access-Control-Allow-Private-Network: true` (Chrome's Private
    /// Network Access preflight).
    pub allow_private_network: bool,
}

/// The CORS decision for a request.
pub open spec fn spec_cors(
    is_options: bool,
    has_request_method: bool,
    has_private_network_request: bool,
    origin: Option<Seq<char>>,
    path: Seq<char>,
    allowlist: Seq<Seq<char>>,
    d: CorsDecision,
) -> bool {
    let allowed = origin matches Some(o) && (spec_is_public_path(path) || spec_origin_allowed(
        o,
        allowlist,
    ));
    &&& d.preflight == (is_options && has_request_method)
    &&& (match d.allow_origin {
        Some(a) => allowed && origin == Some(a@),
        None => !allowed,
    })
    &&& d.allow_private_network == (d.preflight && allowed && has_private_network_request)
}

/// Hand-rolled CORS with a dynamic origin allowlist. The health path is
/// origin-agnostic so Ember can detect the bridge before pairing; requests
/// without an `Origin` are not browser requests and get no CORS headers.
pub fn cors_decision(
    is_options: bool,
    has_request_method: bool,
    has_private_network_request: bool,
    origin: Option<&str>,
    path: &str,
    allowlist: &Vec<String>,
) -> (r: CorsDecision)
    ensures
        spec_cors(
            is_options,
            has_request_method,
            has_private_network_request,
            opt_str(origin),
            path@,
            list_view(allowlist@),
            r,
        ),
{
    let allow_origin = match origin {
        Some(o) => {
            if is_public_path(path) || origin_allowed(o, allowlist) {
                Some(o.to_owned())
            } else {
                None
            }
        },
        None => None,
    };
    let preflight = is_options && has_request_method;
    let allowed = allow_origin.is_some();
    CorsDecision {
        preflight,
        allow_origin,
        allow_private_network: preflight && allowed && has_private_network_request,
    }
}

/// `d` carries the header `Access-Control-Allow-Origin: o`.
pub open spec fn echoes_origin(d: CorsDecision, o: Seq<char>) -> bool {
    d.allow_origin matches Some(a) && a@ == o
}

/// Browsers read every answer for an origin the user allowed: for any
/// request method, preflight or not, and any path, an origin that is on
/// the allowlist (or with `"*"` on it) is echoed in
/// `Access-Control-Allow-Origin`; the health check is echoed to every
/// origin; a request without an `Origin` gets no CORS headers.
pub proof fn law_cors_echoes_allowed_origins(
    is_options: bool,
    has_request_method: bool,
    has_private_network_request: bool,
    origin: Option<Seq<char>>,
    path: Seq<char>,
    allowlist: Seq<Seq<char>>,
    d: CorsDecision,
)
    requires
        spec_cors(
            is_options,
            has_request_method,
            has_private_network_request,
            origin,
            path,
            allowlist,
            d,
        ),
    ensures
        forall|o: Seq<char>|
            origin == Some(o) && #[trigger] allowlist.contains(o) ==> echoes_origin(d, o),
        forall|o: Seq<char>|
            origin == Some(o) && allowlist.contains("*"@) ==> #[trigger] echoes_origin(d, o),
        forall|o: Seq<char>|
            origin == Some(o) && path == "/api/health"@ ==> #[trigger] echoes_origin(d, o),
        origin is None ==> d.allow_origin is None && !d.allow_private_network,
        d.allow_origin matches Some(a) ==> origin == Some(a@),
{
    reveal_strlit("*");
    if let Some(o) = origin {
        if allowlist.contains(o) {
            let i = choose|i: int| 0 <= i < allowlist.len() && allowlist[i] == o;
            assert(spec_origin_allowed(o, allowlist));
        }
        if allowlist.contains("*"@) {
            let i = choose|i: int| 0 <= i < allowlist.len() && allowlist[i] == "*"@;
            assert(spec_origin_allowed(o, allowlist));
        }
    }
}

/// Whether an origin may read an answer does not depend on the request's
/// method: two requests from the same origin to the same path, one a
/// preflight and one not (or with any other method flags), get the same
/// `Access-Control-Allow-Origin`.
pub proof fn law_cors_origin_ignores_method(
    is_options1: bool,
    has_request_method1: bool,
    has_private_network_request1: bool,
    is_options2: bool,
    has_request_method2: bool,
    has_private_network_request2: bool,
    origin: Option<Seq<char>>,
    path: Seq<char>,
    allowlist: Seq<Seq<char>>,
    d1: CorsDecision,
    d2: CorsDecision,
)
    requires
        spec_cors(
            is_options1,
            has_request_method1,
            has_private_network_request1,
            origin,
            path,
            allowlist,
            d1,
        ),
        spec_cors(
            is_options2,
            has_request_method2,
            has_private_network_request2,
            origin,
            path,
            allowlist,
            d2,
        ),
    ensures
        d1.allow_origin is Some <==> d2.allow_origin is Some,
        d1.allow_origin matches Some(a1) ==> d2.allow_origin matches Some(a2) && a1@ == a2@,
{
}

/// Only a real preflight (`OPTIONS` with `Access-Control-Request-Method`)
/// is answered directly, and Chrome's private-network permission is only
/// granted on a preflight whose origin may read the answer and that asked
/// for it; for such a preflight from an allowlisted origin it is granted.
pub proof fn law_cors_preflight_and_private_network(
    is_options: bool,
    has_request_method: bool,
    has_private_network_request: bool,
    origin: Option<Seq<char>>,
    path: Seq<char>,
    allowlist: Seq<Seq<char>>,
    d: CorsDecision,
)
    requires
        spec_cors(
            is_options,
            has_request_method,
            has_private_network_request,
            origin,
            path,
            allowlist,
            d,
        ),
    ensures
        d.preflight <==> is_options && has_request_method,
        d.allow_private_network ==> d.preflight && d.allow_origin is Some
            && has_private_network_request,
        forall|o: Seq<char>|
            origin == Some(o) && #[trigger] allowlist.contains(o) && is_options && has_request_method
                && has_private_network_request ==> d.allow_private_network,
{
    if let Some(o) = origin {
        if allowlist.contains(o) {
            let i = choose|i: int| 0 <= i < allowlist.len() && allowlist[i] == o;
            assert(spec_origin_allowed(o, allowlist));
        }
    }
}

} // verus!
