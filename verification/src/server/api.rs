//! What each route of the localhost API does to the bridge's state, from
//! request values to response values: request gating, pairing, uploads,
//! saved machines and settings. The HTTP plumbing (and persisting the
//! configuration) runs outside; a refused request changes nothing.
use crate::config::{has_ip, remove_ip, without_ip, AppConfig, SavedMachine};
use crate::machine::net::{spec_is_local_network_ip, NetAddr};
use crate::server::auth::{
    authorize, host_is_local, list_view, opt_str, spec_authorized, spec_host_is_local,
    spec_origin_allowed,
};
use crate::server::jobs::{index_of, spec_job_id, spec_new_record, spec_prune, JobRecord, JobQueue};
use crate::server::pairing::{
    spec_begin, spec_live_pending, spec_poll, spec_respond, Pairing, PendingPairing,
    PAIRING_TTL_MS,
};
use crate::server::routes::{
    normalize_nickname, normalize_origins, normalized_origins, valid_origin, pairing_app_name, poll_reply,
    required_target_ip, spec_pairing_app_name, spec_poll_reply, vet_pairing_origin, vet_send,
    vet_target_ip, vet_target_ip_spec, opt_string, PairBody, PairingRespondBody, PollState,
    Rejection, SaveMachineBody, UpdateSettingsBody,
};
use crate::text::trim;
use vstd::prelude::*;

verus! {

/// Admission of a request: its `Host` must be loopback (anything else means
/// DNS rebinding), and it must carry the token unless its path needs none.
pub fn require_token(
    host: Option<&str>,
    path: &str,
    authorization: Option<&str>,
    x_ember_token: Option<&str>,
    api_token: &str,
) -> (r: Result<(), Rejection>)
    ensures
        !spec_host_is_local(opt_str(host)) ==> r == Err::<(), Rejection>(Rejection::HostNotLocal),
        spec_host_is_local(opt_str(host)) && !spec_authorized(
            path@,
            opt_str(authorization),
            opt_str(x_ember_token),
            api_token@,
        ) ==> r == Err::<(), Rejection>(Rejection::Unauthorized),
        spec_host_is_local(opt_str(host)) && spec_authorized(
            path@,
            opt_str(authorization),
            opt_str(x_ember_token),
            api_token@,
        ) ==> r is Ok,
{
    if !host_is_local(host) {
        return Err(Rejection::HostNotLocal);
    }
    if !authorize(path, authorization, x_ember_token, api_token) {
        return Err(Rejection::Unauthorized);
    }
    Ok(())
}

/// The app name a pairing body carries, if any.
pub open spec fn body_app_name(body: Option<PairBody>) -> Option<Seq<char>> {
    match body {
        Some(b) => opt_string(b.app_name),
        None => None,
    }
}

/// A browser asks to pair (`POST /api/pair`): only allowed origins may
/// create a request, and only while none is pending.
pub fn create_pairing(
    pairing: &mut Pairing,
    origin: Option<&str>,
    body: Option<PairBody>,
    allowlist: &Vec<String>,
    now_ms: u64,
) -> (r: Result<PendingPairing, Rejection>)
    ensures
        match opt_str(origin) {
            None => r == Err::<PendingPairing, Rejection>(Rejection::OriginRequired)
                && final(pairing)@ == old(pairing)@,
            Some(o) => if !spec_origin_allowed(o, list_view(allowlist@)) {
                &&& r matches Err(Rejection::OriginNotAllowed(s)) && s@ == o
                &&& final(pairing)@ == old(pairing)@
            } else if spec_live_pending(old(pairing)@, now_ms) {
                &&& r == Err::<PendingPairing, Rejection>(Rejection::PairingInProgress)
                &&& final(pairing)@ == old(pairing)@
            } else {
                &&& r matches Ok(p)
                &&& p.origin@ == o
                &&& p.app_name@ == spec_pairing_app_name(body_app_name(body))
                &&& p.expires_in_ms == PAIRING_TTL_MS
                &&& final(pairing)@ == spec_begin(
                    old(pairing)@,
                    p.id@,
                    o,
                    spec_pairing_app_name(body_app_name(body)),
                    now_ms,
                ).1
            },
        },
{
    let o = match vet_pairing_origin(origin, allowlist) {
        Ok(o) => o,
        Err(e) => return Err(e),
    };
    let app_name = match body {
        Some(b) => b.app_name,
        None => None,
    };
    let name = pairing_app_name(app_name);
    match pairing.begin(o, name, now_ms) {
        Ok(p) => Ok(p),
        Err(()) => Err(Rejection::PairingInProgress),
    }
}

/// A browser polls its pairing request (`GET /api/pair/{id}`). An
/// `Approved` answer is the one moment the API token crosses to the
/// browser; the poll consumed the request, so it cannot repeat.
pub fn poll_pairing(
    pairing: &mut Pairing,
    id: &str,
    origin: Option<&str>,
    allowlist: &Vec<String>,
    now_ms: u64,
) -> (r: Result<PollState, Rejection>)
    ensures
        match opt_str(origin) {
            None => r == Err::<PollState, Rejection>(Rejection::OriginRequired)
                && final(pairing)@ == old(pairing)@,
            Some(o) => if !spec_origin_allowed(o, list_view(allowlist@)) {
                &&& r matches Err(Rejection::OriginNotAllowed(s)) && s@ == o
                &&& final(pairing)@ == old(pairing)@
            } else {
                &&& r == spec_poll_reply(spec_poll(old(pairing)@, id@, o, now_ms).0)
                &&& final(pairing)@ == spec_poll(old(pairing)@, id@, o, now_ms).1
            },
        },
{
    let o = match vet_pairing_origin(origin, allowlist) {
        Ok(o) => o,
        Err(e) => return Err(e),
    };
    let outcome = pairing.poll(id, o.as_str(), now_ms);
    poll_reply(outcome)
}

/// The desktop UI approves or denies (`POST /api/pairing/respond`);
/// returns the requesting origin.
pub fn pairing_respond(pairing: &mut Pairing, body: &PairingRespondBody, now_ms: u64) -> (r:
    Result<String, Rejection>)
    ensures
        match spec_respond(old(pairing)@, body.id@, body.approve, now_ms).0 {
            Some(o) => r matches Ok(s) && s@ == o,
            None => r == Err::<String, Rejection>(Rejection::NoPendingPairing),
        },
        final(pairing)@ == spec_respond(old(pairing)@, body.id@, body.approve, now_ms).1,
{
    match pairing.respond(body.id.as_str(), body.approve, now_ms) {
        Some(o) => Ok(o),
        None => Err(Rejection::NoPendingPairing),
    }
}

/// Accept an upload (`POST /api/send?ip=&filename=`, body = design): the
/// target is vetted, then the filename and body; an accepted upload is a
/// new queued job. `parsed_ip` is the `ip` parameter read as an address
/// (`None` when it is not one); `body_len` is the length of the body.
pub fn send(
    jobs: &mut JobQueue,
    ip_param_present: bool,
    parsed_ip: Option<NetAddr>,
    filename: Option<&str>,
    body_len: usize,
    now_ms: u64,
) -> (r: Result<JobRecord, Rejection>)
    ensures
        r is Err ==> final(jobs).records@ == old(jobs).records@ && final(jobs).counter == old(
            jobs,
        ).counter,
        r matches Ok(job) ==> spec_is_local_network_ip(job.ip),
        old(jobs).wf() && old(jobs).counter < u64::MAX ==> final(jobs).wf(),
        old(jobs).wf() ==> (r matches Ok(job) ==> index_of(final(jobs).records@, job.id@) == Some(
            (final(jobs).records@.len() - 1) as int,
        )),
        !ip_param_present ==> r == Err::<JobRecord, Rejection>(Rejection::MissingIp),
        ip_param_present ==> match vet_target_ip_spec(parsed_ip) {
            Err(e) => r == Err::<JobRecord, Rejection>(e),
            Ok(ip) => match filename {
                Some(f) if trim(f@).len() > 0 => if body_len > 0 {
                    &&& r matches Ok(job)
                    &&& spec_new_record(
                        spec_job_id(now_ms, old(jobs).counter),
                        trim(f@),
                        ip,
                        body_len as u64,
                        now_ms,
                        job,
                    )
                    &&& final(jobs).records@ == spec_prune(old(jobs).records@.push(job))
                    &&& final(jobs).counter == old(jobs).counter.wrapping_add(1)
                } else {
                    r == Err::<JobRecord, Rejection>(Rejection::EmptyBody)
                },
                _ => r == Err::<JobRecord, Rejection>(Rejection::MissingFilename),
            },
        },
{
    let ip = match required_target_ip(ip_param_present, parsed_ip) {
        Ok(ip) => ip,
        Err(e) => return Err(e),
    };
    let name = match vet_send(filename, body_len) {
        Ok(n) => n,
        Err(e) => return Err(e),
    };
    Ok(jobs.enqueue(ip, name, body_len as u64, now_ms))
}

/// One job for progress polling (`GET /api/jobs/{id}`).
pub fn get_job(jobs: &JobQueue, id: &str) -> (r: Result<JobRecord, Rejection>)
    ensures
        match index_of(jobs.records@, id@) {
            Some(i) => r == Ok::<JobRecord, Rejection>(jobs.records@[i]),
            None => r matches Err(Rejection::JobNotFound(s)) && s@ == id@,
        },
{
    match jobs.get(id) {
        Some(j) => Ok(j),
        None => Err(Rejection::JobNotFound(id.to_owned())),
    }
}

/// Save a machine (`POST /api/machines`): the address must be a local one;
/// the nickname is stored trimmed (none when empty); an earlier entry for
/// the address is replaced. `parsed_ip` is `body.ip`, trimmed, read as an
/// address (`None` when it is not one).
pub fn save_machine(
    config: &mut AppConfig,
    body: SaveMachineBody,
    parsed_ip: Option<NetAddr>,
) -> (r: Result<NetAddr, Rejection>)
    ensures
        r == vet_target_ip_spec(parsed_ip),
        r is Err ==> *final(config) == *old(config),
        r matches Ok(ip) ==> ({
            let m = final(config).machines@.last();
            &&& final(config).machines@ == without_ip(old(config).machines@, ip).push(m)
            &&& m.ip == ip
            &&& m.manufacturer == body.manufacturer
            &&& match body.nickname {
                Some(n) if trim(n@).len() > 0 => m.nickname matches Some(t) && t@ == trim(n@),
                _ => m.nickname is None,
            }
            &&& final(config).api_token == old(config).api_token
            &&& final(config).allowed_origins == old(config).allowed_origins
        }),
{
    let ip = match vet_target_ip(parsed_ip) {
        Ok(ip) => ip,
        Err(e) => return Err(e),
    };
    let machine = SavedMachine {
        ip,
        nickname: normalize_nickname(body.nickname),
        manufacturer: body.manufacturer,
    };
    crate::config::save_machine(&mut config.machines, machine);
    Ok(ip)
}

/// Forget a saved machine (`DELETE /api/machines/{ip}`).
pub fn delete_machine(config: &mut AppConfig, parsed_ip: Option<NetAddr>) -> (r: Result<
    (),
    Rejection,
>)
    ensures
        parsed_ip is None ==> r == Err::<(), Rejection>(Rejection::InvalidIp) && *final(config)
            == *old(config),
        parsed_ip matches Some(ip) ==> final(config).machines@ == without_ip(
            old(config).machines@,
            ip,
        ) && (if has_ip(old(config).machines@, ip) {
            r is Ok
        } else {
            r == Err::<(), Rejection>(Rejection::MachineNotSaved(ip))
        }),
        final(config).api_token == old(config).api_token,
        final(config).allowed_origins == old(config).allowed_origins,
{
    let ip = match parsed_ip {
        Some(ip) => ip,
        None => return Err(Rejection::InvalidIp),
    };
    if remove_ip(&mut config.machines, ip) {
        Ok(())
    } else {
        Err(Rejection::MachineNotSaved(ip))
    }
}

/// Replace the allowed origins (`PUT /api/settings`) with the normalized
/// list (each entry trimmed, trailing `/` removed, empty ones dropped).
/// It succeeds exactly when every normalized entry is a valid origin;
/// otherwise it reports the first invalid one and changes nothing.
pub fn update_settings(config: &mut AppConfig, body: &UpdateSettingsBody) -> (r: Result<(), Rejection>)
    ensures
        ({
            let n = normalized_origins(list_view(body.allowed_origins@));
            &&& r is Ok <==> forall|i: int| 0 <= i < n.len() ==> valid_origin(#[trigger] n[i])
            &&& r is Ok ==> list_view(final(config).allowed_origins@) == n
            &&& r is Err ==> *final(config) == *old(config)
            &&& r is Err ==> (r matches Err(Rejection::InvalidOrigin(o)) && exists|k: int|
                0 <= k < n.len() && #[trigger] n[k] == o@ && !valid_origin(o@) && forall|j: int|
                    0 <= j < k ==> valid_origin(#[trigger] n[j]))
        }),
        final(config).api_token == old(config).api_token,
        final(config).machines == old(config).machines,
{
    let ghost n = normalized_origins(list_view(body.allowed_origins@));
    match normalize_origins(&body.allowed_origins) {
        Ok(list) => {
            proof {
                assert forall|i: int| 0 <= i < n.len() implies valid_origin(#[trigger] n[i]) by {
                    assert(list_view(list@)[i] == list@[i]@);
                }
            }
            config.allowed_origins = list;
            Ok(())
        },
        Err(e) => Err(e),
    }
}

} // verus!
