use spotify_remote::ids::{device_id, generate_id, generate_session_token, relay_key_from};
use spotify_remote::relay::{
    classify, forward_creds_url, RelayAction, RelayAttempt, RelayDecision, RelayOutcome,
};

#[test]
fn classify_reads_statuses() {
    assert_eq!(classify(200), RelayDecision::Success);
    assert_eq!(classify(409), RelayDecision::Retry);
    assert_eq!(classify(500), RelayDecision::Abort);
    assert_eq!(classify(404), RelayDecision::Abort);
}

#[test]
fn five_conflicts_then_success_surfaces_one_key() {
    let mut attempt = RelayAttempt::begin(16);
    let mut keys_posted = vec![generate_id()];
    for _ in 0..5 {
        match attempt.on_response(409) {
            RelayAction::PostWithNewKey => keys_posted.push(generate_id()),
            RelayAction::Stop => panic!("a conflict must not end the round"),
        }
        assert!(attempt.outcome.is_none());
    }
    assert_eq!(attempt.on_response(200), RelayAction::Stop);
    assert_eq!(attempt.outcome, Some(RelayOutcome::Delivered));
    // six keys were tried; exactly the last one is surfaced
    assert_eq!(keys_posted.len(), 6);
    let final_key = keys_posted.last().unwrap();
    assert!(!final_key.is_empty());
}

#[test]
fn non_conflict_failure_aborts_round() {
    let mut attempt = RelayAttempt::begin(16);
    assert_eq!(attempt.on_response(503), RelayAction::Stop);
    assert_eq!(attempt.outcome, Some(RelayOutcome::Failed(503)));
}

#[test]
fn transport_failure_aborts_round() {
    let mut attempt = RelayAttempt::begin(16);
    assert_eq!(attempt.on_response(409), RelayAction::PostWithNewKey);
    assert_eq!(attempt.on_transport_failure(), RelayAction::Stop);
    assert_eq!(attempt.outcome, Some(RelayOutcome::TransportFailed));
}

#[test]
fn session_tokens_are_sixteen_hex_digits() {
    for _ in 0..50 {
        let token = generate_session_token();
        assert_eq!(token.len(), 16);
        assert!(token.chars().all(|c| c.is_ascii_hexdigit() && !c.is_ascii_uppercase()));
    }
}

#[test]
fn conflicts_alone_reach_the_cap() {
    let mut attempt = RelayAttempt::begin(3);
    assert_eq!(attempt.on_response(409), RelayAction::PostWithNewKey);
    assert_eq!(attempt.on_response(409), RelayAction::PostWithNewKey);
    assert_eq!(attempt.on_response(409), RelayAction::Stop);
    assert_eq!(attempt.outcome, Some(RelayOutcome::GaveUp));
}

#[test]
fn generated_keys_are_word_plus_two_digit_suffix() {
    let words = ["brad", "bro", "beer", "buck", "beans", "bird", "brain"];
    for _ in 0..200 {
        let key = generate_id();
        let word = words
            .iter()
            .find(|w| key.starts_with(*w) && key[w.len()..].chars().all(|c| c.is_ascii_digit()))
            .unwrap_or_else(|| panic!("key {key} does not match the shape"));
        let suffix: u32 = key[word.len()..].parse().expect("numeric suffix");
        assert!(suffix < 100);
    }
}

#[test]
fn relay_key_from_formats_word_and_suffix() {
    assert_eq!(relay_key_from("brad", 5), "brad5");
    assert_eq!(relay_key_from("beer", 42), "beer42");
    assert_eq!(relay_key_from("brain", 105), "brain5");
    assert_eq!(relay_key_from("bro", 99), "bro99");
    assert_eq!(relay_key_from("buck", 0), "buck0");
}

#[test]
fn device_id_is_lowercase_hex_sha1_of_name() {
    assert_eq!(device_id("danube"), "a3c4edd11d00961baf01873ccc7d21b3e2a5d450");
    assert_eq!(device_id("dev"), "34c6fceca75e456f25e7e99531e2425c6c1de443");
    assert_eq!(device_id(""), "da39a3ee5e6b4b0d3255bfef95601890afd80709");
}

#[test]
fn forward_url_appends_endpoint_path() {
    assert_eq!(
        forward_creds_url("http://localhost:8080"),
        "http://localhost:8080/api/forward_creds"
    );
}
