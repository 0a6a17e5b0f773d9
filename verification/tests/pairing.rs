use ember_bridge::server::pairing::{hex_digits, random_hex, random_id, Pairing, PollOutcome, PAIRING_TTL_MS};

const ORIGIN: &str = "https://ember.example";
const T0: u64 = 1_000_000;

#[test]
fn approve_releases_once() {
    let mut pairing = Pairing::new();
    let req = pairing.begin(ORIGIN.into(), "Ember".into(), T0).unwrap();

    assert_eq!(pairing.poll(&req.id, ORIGIN, T0 + 1), PollOutcome::Pending);
    assert_eq!(pairing.respond(&req.id, true, T0 + 2).as_deref(), Some(ORIGIN));
    assert_eq!(pairing.poll(&req.id, ORIGIN, T0 + 3), PollOutcome::Approved);
    // Consumed: the same id yields nothing again.
    assert_eq!(pairing.poll(&req.id, ORIGIN, T0 + 4), PollOutcome::Unknown);
    assert!(pairing.pending(T0 + 5).is_none());
}

#[test]
fn deny_is_terminal() {
    let mut pairing = Pairing::new();
    let req = pairing.begin(ORIGIN.into(), "Ember".into(), T0).unwrap();
    assert_eq!(pairing.respond(&req.id, false, T0 + 1).as_deref(), Some(ORIGIN));
    assert_eq!(pairing.poll(&req.id, ORIGIN, T0 + 2), PollOutcome::Denied);
    assert_eq!(pairing.poll(&req.id, ORIGIN, T0 + 3), PollOutcome::Unknown);
    // A denied request cannot be flipped afterwards.
    assert_eq!(pairing.respond(&req.id, true, T0 + 4), None);
}

#[test]
fn origin_is_checked_and_second_request_conflicts() {
    let mut pairing = Pairing::new();
    let req = pairing.begin(ORIGIN.into(), "Ember".into(), T0).unwrap();
    assert_eq!(
        pairing.poll(&req.id, "https://other.example", T0 + 1),
        PollOutcome::WrongOrigin
    );
    assert_eq!(pairing.poll("0000", ORIGIN, T0 + 2), PollOutcome::Unknown);
    assert!(pairing.begin(ORIGIN.into(), "Ember".into(), T0 + 3).is_err());
}

#[test]
fn expiry_clears_the_slot() {
    let mut pairing = Pairing::new();
    let req = pairing.begin(ORIGIN.into(), "Ember".into(), T0).unwrap();
    // Past the request's TTL.
    let later = T0 + PAIRING_TTL_MS + 1_000;
    assert!(pairing.pending(later).is_none());
    assert_eq!(pairing.respond(&req.id, true, later), None);
    assert_eq!(pairing.poll(&req.id, ORIGIN, later), PollOutcome::Unknown);
    // The slot is free again for a new request.
    assert!(pairing.begin(ORIGIN.into(), "Ember".into(), later).is_ok());
}

#[test]
fn a_request_lives_exactly_its_ttl() {
    let mut pairing = Pairing::new();
    let req = pairing.begin(ORIGIN.into(), "Ember".into(), T0).unwrap();
    assert_eq!(req.expires_in_ms, PAIRING_TTL_MS);
    assert_eq!(req.origin, ORIGIN);
    assert_eq!(req.app_name, "Ember");
    let at_edge = pairing.pending(T0 + PAIRING_TTL_MS).unwrap();
    assert_eq!(at_edge.expires_in_ms, 0);
    let midway = pairing.pending(T0 + 20_000).unwrap();
    assert_eq!(midway.expires_in_ms, PAIRING_TTL_MS - 20_000);
    assert!(pairing.pending(T0 + PAIRING_TTL_MS + 1).is_none());
}

#[test]
fn an_answered_request_does_not_block_a_new_one() {
    let mut pairing = Pairing::new();
    let first = pairing.begin(ORIGIN.into(), "Ember".into(), T0).unwrap();
    assert!(pairing.respond(&first.id, true, T0 + 1).is_some());
    // Approved but not yet fetched: a new request replaces it.
    let second = pairing.begin(ORIGIN.into(), "Ember".into(), T0 + 2).unwrap();
    assert_eq!(pairing.poll(&first.id, ORIGIN, T0 + 3), PollOutcome::Unknown);
    assert_eq!(pairing.poll(&second.id, ORIGIN, T0 + 3), PollOutcome::Pending);
}

#[test]
fn ids_are_32_lowercase_hex_digits() {
    let id = random_id();
    assert_eq!(id.len(), 32);
    assert!(id.chars().all(|c| c.is_ascii_hexdigit() && !c.is_ascii_uppercase()));
    assert_ne!(random_id(), random_id());
}

#[test]
fn drawn_values_are_spelled_as_lowercase_hex() {
    assert_eq!(hex_digits(&vec![0, 9, 10, 15, 3]), "09af3");
    assert_eq!(hex_digits(&vec![]), "");
    let boundary_part = random_hex(12);
    assert_eq!(boundary_part.len(), 12);
    assert!(boundary_part.chars().all(|c| c.is_ascii_digit() || ('a'..='f').contains(&c)));
}
