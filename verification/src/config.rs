//! Application configuration: the localhost API token, the browser-origin
//! allowlist and the saved machines. Reading and writing the file is the
//! caller's business; this module holds the content and its edits.
use crate::machine::net::NetAddr;
use crate::server::pairing::{all_nibbles, hex_text, is_lower_hex, random_hex};
use vstd::prelude::*;

verus! {

/// A machine the user has saved (manually or from discovery).
#[derive(Debug, Clone, PartialEq, Eq)]
pub struct SavedMachine {
    pub ip: NetAddr,
    /// User-facing nickname, e.g. "Sewing room".
    pub nickname: Option<String>,
    /// Backend that recognized the machine when it was saved, if known.
    pub manufacturer: Option<String>,
}

/// The persisted settings.
#[derive(Debug, Clone, PartialEq, Eq)]
pub struct AppConfig {
    /// Bearer token required on every localhost API request.
    pub api_token: String,
    /// Web origins allowed to call the API from a browser (CORS allowlist).
    /// Localhost origins and the app's own webview are always allowed;
    /// `"*"` allows every origin (the token remains required).
    pub allowed_origins: Vec<String>,
    pub machines: Vec<SavedMachine>,
}

/// 128 bits of randomness, hex-encoded: a fresh API token.
pub fn generate_token() -> (r: String)
    ensures
        exists|nibbles: Seq<u8>|
            #![trigger hex_text(nibbles)]
            nibbles.len() == 32 && all_nibbles(nibbles) && r@ == hex_text(nibbles),
        r@.len() == 32,
        forall|i: int| 0 <= i < 32 ==> is_lower_hex(#[trigger] r@[i]),
{
    random_hex(32)
}

impl AppConfig {
    /// First-launch configuration: a fresh token, nothing else.
    pub fn new_with_token() -> (r: AppConfig)
        ensures
            exists|nibbles: Seq<u8>|
                #![trigger hex_text(nibbles)]
                nibbles.len() == 32 && all_nibbles(nibbles) && r.api_token@ == hex_text(nibbles),
            r.api_token@.len() == 32,
            forall|i: int| 0 <= i < 32 ==> is_lower_hex(#[trigger] r.api_token@[i]),
            r.allowed_origins@.len() == 0,
            r.machines@.len() == 0,
    {
        AppConfig { api_token: generate_token(), allowed_origins: Vec::new(), machines: Vec::new() }
    }
}

/// What reading the configuration file found.
#[derive(Debug)]
pub enum ConfigFile {
    /// There is no file yet: first launch.
    Missing,
    /// The file exists and holds a configuration.
    Parsed(AppConfig),
    /// The file exists but is not a configuration (the parser's complaint).
    Corrupt(String),
    /// The file could not be read (the system's complaint).
    Unreadable(String),
}

/// What to do with it.
#[derive(Debug)]
pub enum ConfigLoad {
    /// Use the stored configuration.
    Use(AppConfig),
    /// First launch: write this fresh configuration, then use it.
    Create(AppConfig),
    /// Stop with this complaint. A corrupt file is never replaced: a fresh
    /// token would silently break the browser's pairing.
    Fail(String),
}

/// Decide from what the file held: a stored configuration is used, a
/// missing one created with a fresh token, anything else fails loudly.
pub fn load_decision(file: ConfigFile) -> (r: ConfigLoad)
    ensures
        match file {
            ConfigFile::Missing => r matches ConfigLoad::Create(c) && (exists|nibbles: Seq<u8>|
                #![trigger hex_text(nibbles)]
                nibbles.len() == 32 && all_nibbles(nibbles) && c.api_token@ == hex_text(nibbles))
                && c.api_token@.len() == 32
                && (forall|i: int| 0 <= i < 32 ==> is_lower_hex(#[trigger] c.api_token@[i]))
                && c.allowed_origins@.len() == 0 && c.machines@.len() == 0,
            ConfigFile::Parsed(c) => r == ConfigLoad::Use(c),
            ConfigFile::Corrupt(m) => r == ConfigLoad::Fail(m),
            ConfigFile::Unreadable(m) => r == ConfigLoad::Fail(m),
        },
{
    match file {
        ConfigFile::Missing => ConfigLoad::Create(AppConfig::new_with_token()),
        ConfigFile::Parsed(c) => ConfigLoad::Use(c),
        ConfigFile::Corrupt(m) => ConfigLoad::Fail(m),
        ConfigFile::Unreadable(m) => ConfigLoad::Fail(m),
    }
}

/// The saved machines other than the one at `ip`, in order.
pub open spec fn without_ip(ms: Seq<SavedMachine>, ip: NetAddr) -> Seq<SavedMachine>
    decreases ms.len(),
{
    if ms.len() == 0 {
        ms
    } else if ms.last().ip == ip {
        without_ip(ms.drop_last(), ip)
    } else {
        without_ip(ms.drop_last(), ip).push(ms.last())
    }
}

/// Some saved machine has this address.
pub open spec fn has_ip(ms: Seq<SavedMachine>, ip: NetAddr) -> bool {
    exists|i: int| 0 <= i < ms.len() && #[trigger] ms[i].ip == ip
}

/// Remove every saved machine at `ip`, keeping the others in order.
pub fn remove_ip(ms: &mut Vec<SavedMachine>, ip: NetAddr) -> (removed: bool)
    ensures
        final(ms)@ == without_ip(old(ms)@, ip),
        removed == has_ip(old(ms)@, ip),
{
    let mut old: Vec<SavedMachine> = Vec::new();
    std::mem::swap(&mut old, ms);
    let ghost all = old@;
    let mut removed = false;
    let mut i: usize = 0;
    let mut kept: Vec<SavedMachine> = Vec::new();
    while i < old.len()
        invariant
            i <= old.len(),
            old@ == all,
            kept@ == without_ip(all.subrange(0, i as int), ip),
            removed == has_ip(all.subrange(0, i as int), ip),
        decreases old.len() - i,
    {
        let m = &old[i];
        proof {
            let pre = all.subrange(0, i as int);
            let post = all.subrange(0, i + 1);
            assert(post.drop_last() =~= pre);
            assert(post.last() == all[i as int]);
            if has_ip(post, ip) {
                let j = choose|j: int| 0 <= j < post.len() && #[trigger] post[j].ip == ip;
                if j < pre.len() {
                    assert(pre[j].ip == ip);
                }
            }
            if has_ip(pre, ip) {
                let j = choose|j: int| 0 <= j < pre.len() && #[trigger] pre[j].ip == ip;
                assert(post[j].ip == ip);
            }
            if all[i as int].ip == ip {
                assert(post[i as int].ip == ip);
            }
        }
        if m.ip == ip {
            removed = true;
        } else {
            kept.push(SavedMachine {
                ip: m.ip,
                nickname: crate::server::jobs::copy_opt_string(&m.nickname),
                manufacturer: crate::server::jobs::copy_opt_string(&m.manufacturer),
            });
        }
        i += 1;
    }
    assert(all.subrange(0, all.len() as int) =~= all);
    *ms = kept;
    removed
}

/// Save a machine: any earlier entry for its address is replaced, and the
/// new entry goes last.
pub fn save_machine(ms: &mut Vec<SavedMachine>, machine: SavedMachine)
    ensures
        final(ms)@ == without_ip(old(ms)@, machine.ip).push(machine),
{
    remove_ip(ms, machine.ip);
    ms.push(machine);
}

// ---------------------------------------------------------------------------
// Laws

/// After removing an address, no saved machine has it; every machine at
/// another address is kept.
pub proof fn law_without_ip(ms: Seq<SavedMachine>, ip: NetAddr)
    ensures
        !has_ip(without_ip(ms, ip), ip),
        forall|m: SavedMachine| m.ip != ip && ms.contains(m) ==> #[trigger] without_ip(
            ms,
            ip,
        ).contains(m),
        forall|m: SavedMachine| #[trigger] without_ip(ms, ip).contains(m) ==> ms.contains(m),
    decreases ms.len(),
{
    if ms.len() > 0 {
        law_without_ip(ms.drop_last(), ip);
        let prev = without_ip(ms.drop_last(), ip);
        let cur = without_ip(ms, ip);
        assert(!has_ip(cur, ip)) by {
            if has_ip(cur, ip) {
                let j = choose|j: int| 0 <= j < cur.len() && #[trigger] cur[j].ip == ip;
                if ms.last().ip != ip && j == prev.len() {
                } else {
                    assert(prev[j].ip == ip);
                }
            }
        }
        assert forall|m: SavedMachine| m.ip != ip && ms.contains(m) implies #[trigger] cur.contains(
            m,
        ) by {
            let j = choose|j: int| 0 <= j < ms.len() && ms[j] == m;
            if j == ms.len() - 1 {
                assert(cur[cur.len() - 1] == m);
            } else {
                assert(ms.drop_last()[j] == m);
                assert(ms.drop_last().contains(m));
                assert(prev.contains(m));
                let k = choose|k: int| 0 <= k < prev.len() && prev[k] == m;
                assert(cur[k] == m);
            }
        }
        assert forall|m: SavedMachine| #[trigger] cur.contains(m) implies ms.contains(m) by {
            let j = choose|j: int| 0 <= j < cur.len() && cur[j] == m;
            if ms.last().ip != ip && j == prev.len() {
                assert(ms[ms.len() - 1] == m);
            } else {
                assert(prev[j] == m);
                assert(prev.contains(m));
                let k = choose|k: int| 0 <= k < ms.drop_last().len() && ms.drop_last()[k] == m;
                assert(ms[k] == m);
            }
        }
    }
}

/// Saving a machine leaves exactly one entry for its address: the saved one,
/// last in the list.
pub proof fn law_save_is_unique(ms: Seq<SavedMachine>, m: SavedMachine)
    ensures
        without_ip(ms, m.ip).push(m).last() == m,
        forall|i: int|
            0 <= i < without_ip(ms, m.ip).len() ==> #[trigger] without_ip(ms, m.ip)[i].ip != m.ip,
{
    law_without_ip(ms, m.ip);
    assert forall|i: int| 0 <= i < without_ip(ms, m.ip).len() implies #[trigger] without_ip(
        ms,
        m.ip,
    )[i].ip != m.ip by {
        if without_ip(ms, m.ip)[i].ip == m.ip {
            assert(has_ip(without_ip(ms, m.ip), m.ip));
        }
    }
}

} // verus!
