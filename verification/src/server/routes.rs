//! Request validation for the localhost API: what each route accepts and
//! which structured error it answers otherwise. The handlers that do the
//! HTTP plumbing call these decisions.
use crate::machine::net::{is_local_network_ip, spec_is_local_network_ip, NetAddr};
use crate::server::auth::{list_view, opt_str, origin_allowed, spec_origin_allowed};
use crate::server::error::{
    STATUS_BAD_REQUEST, STATUS_CONFLICT, STATUS_FORBIDDEN, STATUS_NOT_FOUND, STATUS_UNAUTHORIZED,
};
use crate::server::pairing::PollOutcome;
use crate::text::{
    chars_of, has_prefix, parse_u64_range, push_range, spec_parse_u64, starts_with, trim,
    trim_string, trimmed_bounds,
};
use vstd::prelude::*;

verus! {

/// Version of the API contract exposed to Ember.
pub const API_VERSION: u32 = 1;

/// Absolute ceiling on accepted design uploads (32 MiB). Machines advertise
/// their own, smaller limits, enforced per upload by the backend.
pub const MAX_UPLOAD_BYTES: usize = 33554432;

/// The application version reported by `/api/health`.
pub fn app_version() -> (r: &'static str)
    ensures
        r@ == "0.1.0"@,
{
    "0.1.0"
}

/// Why a request was refused before any work was done.
#[derive(Debug, Clone, PartialEq, Eq)]
pub enum Rejection {
    /// The `ip` query parameter is missing.
    MissingIp,
    /// The target is not an IP address.
    InvalidIp,
    /// The target is not a private/local network address.
    IpNotLocal(NetAddr),
    /// The device at the target speaks no supported protocol.
    NotAMachine(NetAddr),
    /// `/api/send` without a `filename`.
    MissingFilename,
    /// `/api/send` without design bytes.
    EmptyBody,
    /// A settings origin that is not a web origin.
    InvalidOrigin(String),
    /// A pairing call without an `Origin` header.
    OriginRequired,
    /// A pairing call from an origin that is not allowed.
    OriginNotAllowed(String),
    /// Another pairing request is awaiting a decision.
    PairingInProgress,
    /// No such pairing request (never existed, expired, consumed).
    PairingNotFound,
    /// The pairing request belongs to a different origin.
    PairingOriginMismatch,
    /// No live pending pairing request with that id.
    NoPendingPairing,
    /// No job with that id.
    JobNotFound(String),
    /// The address is not a saved machine.
    MachineNotSaved(NetAddr),
    /// A discovery sweep is already running.
    DiscoveryRunning,
    /// The `Host` header is not loopback (DNS rebinding).
    HostNotLocal,
    /// Missing or invalid API token.
    Unauthorized,
}

/// The stable code of each refusal.
pub open spec fn spec_rejection_code(r: Rejection) -> Seq<char> {
    match r {
        Rejection::MissingIp => "missing_ip"@,
        Rejection::InvalidIp => "invalid_ip"@,
        Rejection::IpNotLocal(_) => "ip_not_local"@,
        Rejection::NotAMachine(_) => "not_a_machine"@,
        Rejection::MissingFilename => "missing_filename"@,
        Rejection::EmptyBody => "empty_body"@,
        Rejection::InvalidOrigin(_) => "invalid_origin"@,
        Rejection::OriginRequired => "origin_required"@,
        Rejection::OriginNotAllowed(_) => "origin_not_allowed"@,
        Rejection::PairingInProgress => "pairing_in_progress"@,
        Rejection::PairingNotFound => "not_found"@,
        Rejection::PairingOriginMismatch => "pairing_origin_mismatch"@,
        Rejection::NoPendingPairing => "not_found"@,
        Rejection::JobNotFound(_) => "not_found"@,
        Rejection::MachineNotSaved(_) => "not_found"@,
        Rejection::DiscoveryRunning => "discovery_running"@,
        Rejection::HostNotLocal => "host_not_local"@,
        Rejection::Unauthorized => "unauthorized"@,
    }
}

/// The HTTP status of each refusal.
pub open spec fn spec_rejection_status(r: Rejection) -> u16 {
    match r {
        Rejection::OriginNotAllowed(_) => STATUS_FORBIDDEN,
        Rejection::PairingOriginMismatch => STATUS_FORBIDDEN,
        Rejection::HostNotLocal => STATUS_FORBIDDEN,
        Rejection::Unauthorized => STATUS_UNAUTHORIZED,
        Rejection::PairingInProgress => STATUS_CONFLICT,
        Rejection::PairingNotFound => STATUS_NOT_FOUND,
        Rejection::NoPendingPairing => STATUS_NOT_FOUND,
        Rejection::JobNotFound(_) => STATUS_NOT_FOUND,
        Rejection::MachineNotSaved(_) => STATUS_NOT_FOUND,
        _ => STATUS_BAD_REQUEST,
    }
}

impl Rejection {
    /// Stable machine-readable code.
    pub fn code(&self) -> (r: &'static str)
        ensures
            r@ == spec_rejection_code(*self),
    {
        match self {
            Rejection::MissingIp => "missing_ip",
            Rejection::InvalidIp => "invalid_ip",
            Rejection::IpNotLocal(_) => "ip_not_local",
            Rejection::NotAMachine(_) => "not_a_machine",
            Rejection::MissingFilename => "missing_filename",
            Rejection::EmptyBody => "empty_body",
            Rejection::InvalidOrigin(_) => "invalid_origin",
            Rejection::OriginRequired => "origin_required",
            Rejection::OriginNotAllowed(_) => "origin_not_allowed",
            Rejection::PairingInProgress => "pairing_in_progress",
            Rejection::PairingNotFound => "not_found",
            Rejection::PairingOriginMismatch => "pairing_origin_mismatch",
            Rejection::NoPendingPairing => "not_found",
            Rejection::JobNotFound(_) => "not_found",
            Rejection::MachineNotSaved(_) => "not_found",
            Rejection::DiscoveryRunning => "discovery_running",
            Rejection::HostNotLocal => "host_not_local",
            Rejection::Unauthorized => "unauthorized",
        }
    }

    /// HTTP status.
    pub fn status(&self) -> (r: u16)
        ensures
            r == spec_rejection_status(*self),
    {
        match self {
            Rejection::OriginNotAllowed(_) => STATUS_FORBIDDEN,
            Rejection::PairingOriginMismatch => STATUS_FORBIDDEN,
            Rejection::HostNotLocal => STATUS_FORBIDDEN,
            Rejection::Unauthorized => STATUS_UNAUTHORIZED,
            Rejection::PairingInProgress => STATUS_CONFLICT,
            Rejection::PairingNotFound => STATUS_NOT_FOUND,
            Rejection::NoPendingPairing => STATUS_NOT_FOUND,
            Rejection::JobNotFound(_) => STATUS_NOT_FOUND,
            Rejection::MachineNotSaved(_) => STATUS_NOT_FOUND,
            _ => STATUS_BAD_REQUEST,
        }
    }
}

/// Vet a parsed target address: it must have parsed, and must be on the
/// local network; the bridge refuses to be a proxy to the internet.
pub fn vet_target_ip(parsed: Option<NetAddr>) -> (r: Result<NetAddr, Rejection>)
    ensures
        match parsed {
            None => r == Err::<NetAddr, Rejection>(Rejection::InvalidIp),
            Some(ip) => if spec_is_local_network_ip(ip) {
                r == Ok::<NetAddr, Rejection>(ip)
            } else {
                r == Err::<NetAddr, Rejection>(Rejection::IpNotLocal(ip))
            },
        },
{
    match parsed {
        None => Err(Rejection::InvalidIp),
        Some(ip) => if is_local_network_ip(ip) {
            Ok(ip)
        } else {
            Err(Rejection::IpNotLocal(ip))
        },
    }
}

/// Vet the required `ip` query parameter: present (`param_present`), then
/// as [`vet_target_ip`].
pub fn required_target_ip(param_present: bool, parsed: Option<NetAddr>) -> (r: Result<
    NetAddr,
    Rejection,
>)
    ensures
        !param_present ==> r == Err::<NetAddr, Rejection>(Rejection::MissingIp),
        param_present ==> r == vet_target_ip_spec(parsed),
{
    if !param_present {
        return Err(Rejection::MissingIp);
    }
    vet_target_ip(parsed)
}

/// The outcome of [`vet_target_ip`].
pub open spec fn vet_target_ip_spec(parsed: Option<NetAddr>) -> Result<NetAddr, Rejection> {
    match parsed {
        None => Err(Rejection::InvalidIp),
        Some(ip) => if spec_is_local_network_ip(ip) {
            Ok(ip)
        } else {
            Err(Rejection::IpNotLocal(ip))
        },
    }
}

/// Validate an upload request (after its target): the trimmed `filename`
/// must be non-empty, and the body must hold design bytes.
pub fn vet_send(filename: Option<&str>, body_len: usize) -> (r: Result<String, Rejection>)
    ensures
        match filename {
            Some(f) if trim(f@).len() > 0 => if body_len > 0 {
                r matches Ok(n) && n@ == trim(f@)
            } else {
                r == Err::<String, Rejection>(Rejection::EmptyBody)
            },
            _ => r == Err::<String, Rejection>(Rejection::MissingFilename),
        },
{
    let name = match filename {
        Some(f) => trim_string(f),
        None => return Err(Rejection::MissingFilename),
    };
    if name.as_str().is_empty() {
        return Err(Rejection::MissingFilename);
    }
    if body_len == 0 {
        return Err(Rejection::EmptyBody);
    }
    Ok(name)
}

/// A nickname is stored trimmed, and an empty one is no nickname.
pub fn normalize_nickname(nickname: Option<String>) -> (r: Option<String>)
    ensures
        match nickname {
            Some(n) if trim(n@).len() > 0 => r matches Some(t) && t@ == trim(n@),
            _ => r is None,
        },
{
    match nickname {
        Some(n) => {
            let t = trim_string(n.as_str());
            if t.as_str().is_empty() {
                None
            } else {
                Some(t)
            }
        },
        None => None,
    }
}

/// The app name shown in the approval prompt: trimmed, at most 64
/// characters, "Unnamed app" when empty or absent.
pub open spec fn spec_pairing_app_name(name: Option<Seq<char>>) -> Seq<char> {
    match name {
        Some(n) => {
            let t = trim(n);
            let c = if t.len() > 64 {
                t.take(64)
            } else {
                t
            };
            if c.len() > 0 {
                c
            } else {
                "Unnamed app"@
            }
        },
        None => "Unnamed app"@,
    }
}

/// The characters of an optional string.
pub open spec fn opt_string(o: Option<String>) -> Option<Seq<char>> {
    match o {
        Some(s) => Some(s@),
        None => None,
    }
}

/// Normalize the display name a browser sends when asking to pair.
pub fn pairing_app_name(name: Option<String>) -> (r: String)
    ensures
        r@ == spec_pairing_app_name(opt_string(name)),
{
    match name {
        Some(n) => {
            let v = chars_of(n.as_str());
            let (a, b) = trimmed_bounds(&v, 0, v.len());
            assert(v@.subrange(0, v.len() as int) =~= v@);
            let end = if b - a > 64 {
                a + 64
            } else {
                b
            };
            if end > a {
                let mut s = String::new();
                push_range(&mut s, &v, a, end);
                proof {
                    if b - a > 64 {
                        assert(v@.subrange(a as int, end as int) =~= v@.subrange(
                            a as int,
                            b as int,
                        ).take(64));
                    }
                }
                s
            } else {
                "Unnamed app".to_owned()
            }
        },
        None => "Unnamed app".to_owned(),
    }
}

/// `s` without trailing `/` characters (`str::trim_end_matches('/')`).
pub open spec fn strip_trailing_slashes(s: Seq<char>) -> Seq<char>
    decreases s.len(),
{
    if s.len() > 0 && s.last() == '/' {
        strip_trailing_slashes(s.drop_last())
    } else {
        s
    }
}

/// One origin from the settings form, normalized.
pub open spec fn normalize_origin(o: Seq<char>) -> Seq<char> {
    strip_trailing_slashes(trim(o))
}

/// The settings origins: each normalized, empty ones dropped, in order.
pub open spec fn normalized_origins(list: Seq<Seq<char>>) -> Seq<Seq<char>>
    decreases list.len(),
{
    if list.len() == 0 {
        seq![]
    } else {
        let prev = normalized_origins(list.drop_last());
        let n = normalize_origin(list.last());
        if n.len() > 0 {
            prev.push(n)
        } else {
            prev
        }
    }
}

/// A value the allowlist accepts: `*` or an `http`, `https` or `tauri`
/// origin.
pub open spec fn valid_origin(o: Seq<char>) -> bool {
    o == "*"@ || has_prefix(o, "http://"@) || has_prefix(o, "https://"@) || has_prefix(
        o,
        "tauri://"@,
    )
}

/// Every web origin is a valid allowlist entry, whatever its host and
/// port: one of scheme `http`, `https` or the app's own `tauri`, and the
/// wildcard `*`. An entry that is none of these (a bare host, another
/// scheme) is refused.
pub proof fn law_web_origins_are_valid(rest: Seq<char>, o: Seq<char>)
    ensures
        valid_origin("http://"@ + rest),
        valid_origin("https://"@ + rest),
        valid_origin("tauri://"@ + rest),
        valid_origin("*"@),
        valid_origin(o) ==> o == "*"@ || exists|t: Seq<char>|
            #![trigger "http://"@ + t]
            #![trigger "https://"@ + t]
            #![trigger "tauri://"@ + t]
            o == "http://"@ + t || o == "https://"@ + t || o == "tauri://"@ + t,
{
    reveal_strlit("http://");
    reveal_strlit("https://");
    reveal_strlit("tauri://");
    assert(("http://"@ + rest).subrange(0, 7) =~= "http://"@);
    assert(("https://"@ + rest).subrange(0, 8) =~= "https://"@);
    assert(("tauri://"@ + rest).subrange(0, 8) =~= "tauri://"@);
    if valid_origin(o) && o != "*"@ {
        if has_prefix(o, "http://"@) {
            assert(o =~= "http://"@ + o.skip(7));
        } else if has_prefix(o, "https://"@) {
            assert(o =~= "https://"@ + o.skip(8));
        } else {
            assert(o =~= "tauri://"@ + o.skip(8));
        }
    }
}

/// Removing trailing slashes leaves none.
proof fn lemma_no_trailing_slash(s: Seq<char>)
    ensures
        strip_trailing_slashes(s).len() > 0 ==> strip_trailing_slashes(s).last() != '/',
        strip_trailing_slashes(s).len() <= s.len(),
    decreases s.len(),
{
    if s.len() > 0 && s.last() == '/' {
        lemma_no_trailing_slash(s.drop_last());
    }
}

/// The stored allowlist holds no blank entry and no entry ending in `/`
/// (`https://ember.example/` is stored as `https://ember.example`), and it
/// is never longer than what was submitted.
pub proof fn law_normalized_origins_are_clean(list: Seq<Seq<char>>)
    ensures
        normalized_origins(list).len() <= list.len(),
        forall|i: int|
            0 <= i < normalized_origins(list).len() ==> #[trigger] normalized_origins(list)[i].len()
                > 0 && normalized_origins(list)[i].last() != '/',
    decreases list.len(),
{
    if list.len() > 0 {
        law_normalized_origins_are_clean(list.drop_last());
        lemma_no_trailing_slash(trim(list.last()));
        let prev = normalized_origins(list.drop_last());
        assert forall|i: int| 0 <= i < normalized_origins(list).len() implies #[trigger]
            normalized_origins(list)[i].len() > 0 && normalized_origins(list)[i].last() != '/' by {
            if i < prev.len() {
                assert(normalized_origins(list)[i] == prev[i]);
            }
        }
    }
}

fn is_valid_origin(o: &Vec<char>) -> (r: bool)
    ensures
        r == valid_origin(o@),
{
    let star = chars_of("*");
    let http = chars_of("http://");
    let https = chars_of("https://");
    let tauri = chars_of("tauri://");
    let is_star = o.len() == 1 && o[0] == '*';
    proof {
        reveal_strlit("*");
        if o@ == star@ {
            assert(o@.len() == 1 && o@[0] == '*');
        }
        if o.len() == 1 && o@[0] == '*' {
            assert(o@ =~= star@);
        }
    }
    is_star || starts_with(o, &http) || starts_with(o, &https) || starts_with(o, &tauri)
}

/// Normalize and validate the allowed-origins list of a settings update:
/// the normalized list when every entry is valid, else the first invalid
/// normalized entry.
pub fn normalize_origins(list: &Vec<String>) -> (r: Result<Vec<String>, Rejection>)
    ensures
        match r {
            Ok(v) => list_view(v@) == normalized_origins(list_view(list@)) && forall|i: int|
                0 <= i < v@.len() ==> valid_origin(#[trigger] v@[i]@),
            Err(e) => e matches Rejection::InvalidOrigin(o) && ({
                let n = normalized_origins(list_view(list@));
                exists|k: int|
                    0 <= k < n.len() && #[trigger] n[k] == o@ && !valid_origin(o@) && forall|j: int|
                        0 <= j < k ==> valid_origin(#[trigger] n[j])
            }),
        },
{
    let ghost lv = list_view(list@);
    let mut out: Vec<String> = Vec::new();
    let mut i: usize = 0;
    while i < list.len()
        invariant
            i <= list.len(),
            lv == list_view(list@),
            list_view(out@) == normalized_origins(lv.subrange(0, i as int)),
            forall|j: int| 0 <= j < out@.len() ==> valid_origin(#[trigger] out@[j]@),
        decreases list.len() - i,
    {
        let v = chars_of(list[i].as_str());
        let (a, b) = trimmed_bounds(&v, 0, v.len());
        assert(v@.subrange(0, v.len() as int) =~= v@);
        let mut e = b;
        while e > a && v[e - 1] == '/'
            invariant
                a <= e <= b <= v.len(),
                strip_trailing_slashes(v@.subrange(a as int, b as int)) == strip_trailing_slashes(
                    v@.subrange(a as int, e as int),
                ),
            decreases e - a,
        {
            assert(v@.subrange(a as int, e as int).drop_last() =~= v@.subrange(a as int, e - 1));
            e -= 1;
        }
        proof {
            let pre = lv.subrange(0, i as int);
            let post = lv.subrange(0, i + 1);
            assert(post.drop_last() =~= pre);
            assert(post.last() == list@[i as int]@);
        }
        if e > a {
            let mut norm: Vec<char> = Vec::new();
            let mut k = a;
            while k < e
                invariant
                    a <= k <= e <= v.len(),
                    norm@ == v@.subrange(a as int, k as int),
                decreases e - k,
            {
                norm.push(v[k]);
                assert(norm@ =~= v@.subrange(a as int, k + 1));
                k += 1;
            }
            if !is_valid_origin(&norm) {
                let mut s = String::new();
                push_range(&mut s, &norm, 0, norm.len());
                assert(norm@.subrange(0, norm.len() as int) =~= norm@);
                proof {
                    let n = normalized_origins(lv);
                    lemma_normalized_prefix(lv, (i + 1) as nat);
                    let kk = out@.len() as int;
                    assert(normalized_origins(lv.subrange(0, i + 1)) == list_view(out@).push(
                        norm@,
                    ));
                    assert(n[kk] == norm@);
                    assert forall|j: int| 0 <= j < kk implies valid_origin(#[trigger] n[j]) by {
                        assert(n[j] == list_view(out@)[j]);
                        assert(out@[j]@ == list_view(out@)[j]);
                    }
                }
                return Err(Rejection::InvalidOrigin(s));
            }
            let mut s = String::new();
            push_range(&mut s, &norm, 0, norm.len());
            assert(norm@.subrange(0, norm.len() as int) =~= norm@);
            let ghost before = out@;
            out.push(s);
            assert(list_view(out@) =~= list_view(before).push(s@));
        }
        i += 1;
    }
    assert(lv.subrange(0, list.len() as int) =~= lv);
    Ok(out)
}

/// Normalizing a longer list extends the normalization of its prefix.
proof fn lemma_normalized_prefix(list: Seq<Seq<char>>, n: nat)
    requires
        n <= list.len(),
    ensures
        normalized_origins(list.subrange(0, n as int)).len() <= normalized_origins(list).len(),
        forall|j: int|
            0 <= j < normalized_origins(list.subrange(0, n as int)).len() ==> #[trigger] normalized_origins(
                list,
            )[j] == normalized_origins(list.subrange(0, n as int))[j],
    decreases list.len() - n,
{
    if n < list.len() {
        lemma_normalized_prefix(list, n + 1);
        let a = list.subrange(0, n as int);
        let b = list.subrange(0, n + 1int);
        assert(b.drop_last() =~= a);
    } else {
        assert(list.subrange(0, n as int) =~= list);
    }
}

/// `?afterSeq=` of the logs route: a number, or 0 when absent or not one.
pub fn parse_after_seq(value: Option<&str>) -> (r: u64)
    ensures
        r == match value {
            Some(v) => match spec_parse_u64(v@) {
                Some(n) => n,
                None => 0,
            },
            None => 0,
        },
{
    match value {
        Some(v) => {
            let c = chars_of(v);
            assert(c@.subrange(0, c.len() as int) =~= c@);
            match parse_u64_range(&c, 0, c.len()) {
                Some(n) => n,
                None => 0,
            }
        },
        None => 0,
    }
}

/// Vet the `Origin` of a tokenless pairing call. These are the only
/// routes where the allowlist is enforced server-side: a pairing request
/// must not even be created for an unknown origin.
pub fn vet_pairing_origin(origin: Option<&str>, allowlist: &Vec<String>) -> (r: Result<
    String,
    Rejection,
>)
    ensures
        match opt_str(origin) {
            None => r == Err::<String, Rejection>(Rejection::OriginRequired),
            Some(o) => if spec_origin_allowed(o, list_view(allowlist@)) {
                r matches Ok(s) && s@ == o
            } else {
                r matches Err(Rejection::OriginNotAllowed(s)) && s@ == o
            },
        },
{
    match origin {
        None => Err(Rejection::OriginRequired),
        Some(o) => {
            if origin_allowed(o, allowlist) {
                Ok(o.to_owned())
            } else {
                Err(Rejection::OriginNotAllowed(o.to_owned()))
            }
        },
    }
}

/// The `state` a browser's pairing poll reports.
#[derive(Debug, Clone, Copy, PartialEq, Eq, Structural)]
pub enum PollState {
    Pending,
    Denied,
    /// The caller attaches the API token to this answer.
    Approved,
}

/// What a browser's pairing poll answers for each outcome.
pub open spec fn spec_poll_reply(o: PollOutcome) -> Result<PollState, Rejection> {
    match o {
        PollOutcome::Unknown => Err(Rejection::PairingNotFound),
        PollOutcome::WrongOrigin => Err(Rejection::PairingOriginMismatch),
        PollOutcome::Pending => Ok(PollState::Pending),
        PollOutcome::Denied => Ok(PollState::Denied),
        PollOutcome::Approved => Ok(PollState::Approved),
    }
}

/// Executable [`spec_poll_reply`].
pub fn poll_reply(o: PollOutcome) -> (r: Result<PollState, Rejection>)
    ensures
        r == spec_poll_reply(o),
{
    match o {
        PollOutcome::Unknown => Err(Rejection::PairingNotFound),
        PollOutcome::WrongOrigin => Err(Rejection::PairingOriginMismatch),
        PollOutcome::Pending => Ok(PollState::Pending),
        PollOutcome::Denied => Ok(PollState::Denied),
        PollOutcome::Approved => Ok(PollState::Approved),
    }
}

/// Body of `POST /api/machines`.
#[derive(Debug, Clone, PartialEq, Eq)]
pub struct SaveMachineBody {
    pub ip: String,
    pub nickname: Option<String>,
    pub manufacturer: Option<String>,
}

/// Body of `POST /api/pair`.
#[derive(Debug, Clone, PartialEq, Eq)]
pub struct PairBody {
    /// Display name shown in the approval prompt, e.g. "Ember".
    pub app_name: Option<String>,
}

/// Body of `POST /api/pairing/respond`.
#[derive(Debug, Clone, PartialEq, Eq)]
pub struct PairingRespondBody {
    pub id: String,
    pub approve: bool,
}

/// Body of `PUT /api/settings`.
#[derive(Debug, Clone, PartialEq, Eq)]
pub struct UpdateSettingsBody {
    pub allowed_origins: Vec<String>,
}

} // verus!
