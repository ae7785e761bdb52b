use slp_scout::connect_code::ConnectCode;
use slp_scout::replay::{DecodeError, Replay, replay_from_player_codes};
use slp_scout::resolver::{ResolveError, resolve_opponent};

#[test]
fn two_identified_participants_make_a_replay() {
    let players = vec![Some("IBDW#0".to_string()), Some("ABCD#1".to_string())];
    let replay = replay_from_player_codes(&players).unwrap();
    assert_eq!(replay.first_identity().as_str(), "IBDW#0");
    assert_eq!(replay.second_identity().as_str(), "ABCD#1");
}

#[test]
fn too_many_participants_are_malformed() {
    let players = vec![
        Some("IBDW#0".to_string()),
        Some("ABCD#1".to_string()),
        Some("EFGH#2".to_string()),
    ];
    assert_eq!(
        replay_from_player_codes(&players).unwrap_err(),
        DecodeError::MalformedReplay
    );
}

#[test]
fn a_missing_identity_is_malformed() {
    let players = vec![Some("IBDW#0".to_string()), None];
    assert_eq!(
        replay_from_player_codes(&players).unwrap_err(),
        DecodeError::MalformedReplay
    );
}

#[test]
fn resolve_returns_the_other_participant() {
    let replay = Replay::new("IBDW#0".to_string(), "ABCD#1".to_string());
    let local = ConnectCode::new("IBDW".to_string(), 0);
    let opponent = resolve_opponent(&replay, &local).unwrap();
    assert_eq!(opponent.format(), "ABCD#1");
}

#[test]
fn resolve_returns_the_other_participant_either_side() {
    let replay = Replay::new("ABCD#1".to_string(), "IBDW#0".to_string());
    let local = ConnectCode::new("IBDW".to_string(), 0);
    let opponent = resolve_opponent(&replay, &local).unwrap();
    assert_eq!(opponent.format(), "ABCD#1");
}

#[test]
fn resolve_fails_when_neither_matches() {
    let replay = Replay::new("AAAA#2".to_string(), "ABCD#1".to_string());
    let local = ConnectCode::new("IBDW".to_string(), 0);
    let r = resolve_opponent(&replay, &local);
    assert_eq!(r.unwrap_err(), ResolveError::AmbiguousOrMissing);
}

#[test]
fn resolve_fails_when_both_match() {
    let replay = Replay::new("IBDW#0".to_string(), "IBDW#0".to_string());
    let local = ConnectCode::new("IBDW".to_string(), 0);
    let r = resolve_opponent(&replay, &local);
    assert_eq!(r.unwrap_err(), ResolveError::AmbiguousOrMissing);
}

#[test]
fn resolve_fails_on_unparsable_identity() {
    let replay = Replay::new("garbage".to_string(), "IBDW#0".to_string());
    let local = ConnectCode::new("IBDW".to_string(), 0);
    let r = resolve_opponent(&replay, &local);
    assert_eq!(r.unwrap_err(), ResolveError::UnparsableIdentity);
}

#[test]
fn resolve_respects_case_and_discriminant() {
    let replay = Replay::new("IBDW#0".to_string(), "IBDW#1".to_string());
    let local = ConnectCode::new("IBDW".to_string(), 0);
    let opponent = resolve_opponent(&replay, &local).unwrap();
    assert_eq!(opponent.format(), "IBDW#1");
}
