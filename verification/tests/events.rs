use spotify_remote::player_events::{
    event_content, join_strings, paused_content, player_events_path, playing_content,
    ManagerAction, ManagerInput, MsgHandle, PlayerEventsManager, PlayerEventWithToken,
};
use spotify_remote::protocol::{PlayerEvent, TrackInfo};

fn track(name: &str, artists: &[&str], album: &str) -> TrackInfo {
    TrackInfo {
        name: name.to_string(),
        artists: artists.iter().map(|a| a.to_string()).collect(),
        album: album.to_string(),
    }
}

fn playing_event(token: &str) -> PlayerEventWithToken {
    PlayerEventWithToken {
        token: token.to_string(),
        event: PlayerEvent::Playing(track("Foo", &["A", "B"], "X")),
    }
}

#[test]
fn playing_event_renders_title_artists_album() {
    let rendered = event_content(PlayerEvent::Playing(track("Foo", &["A", "B"], "X")));
    assert_eq!(rendered, "▶️ Foo - A, B - X");
    assert!(rendered.contains("Foo"));
    assert!(rendered.contains("A, B"));
    assert!(rendered.contains("X"));
}

#[test]
fn renderings_carry_distinct_leading_glyphs() {
    let playing = playing_content(track("Foo", &["A", "B"], "X"));
    let paused = paused_content(track("Other", &["C"], "Y"));
    let stopped = event_content(PlayerEvent::Stopped);
    assert_eq!(paused, "⏸️ Other - C - Y");
    assert_eq!(stopped, "⏹️");
    let p = playing.chars().next().unwrap();
    let q = paused.chars().next().unwrap();
    let s = stopped.chars().next().unwrap();
    assert_ne!(p, q);
    assert_ne!(p, s);
    assert_ne!(q, s);
}

#[test]
fn track_without_artists_renders_empty_middle_part() {
    let rendered = playing_content(track("T", &[], "A"));
    assert_eq!(rendered, "▶️ T -  - A");
}

#[test]
fn join_handles_empty_and_single_lists() {
    assert_eq!(join_strings(&Vec::new(), ", "), "");
    assert_eq!(join_strings(&vec!["solo".to_string()], ", "), "solo");
    assert_eq!(
        join_strings(&vec!["a".to_string(), "b".to_string(), "c".to_string()], ", "),
        "a, b, c"
    );
}

#[test]
fn event_kind_names_match_wire_discriminants() {
    assert_eq!(PlayerEvent::Playing(track("t", &[], "a")).kind_name(), "Playing");
    assert_eq!(PlayerEvent::Paused(track("t", &[], "a")).kind_name(), "Paused");
    assert_eq!(PlayerEvent::Stopped.kind_name(), "Stopped");
}

#[test]
fn unknown_token_event_is_dropped_without_effect() {
    let mut mgr = PlayerEventsManager::new();
    match mgr.step(ManagerInput::Event(playing_event("tok-1"))) {
        ManagerAction::Continue => {}
        _ => panic!("an event with no registered handle must be dropped"),
    }
    // the map was not touched: registering afterwards behaves as on a
    // fresh manager, and an event for a different token is still dropped
    let handle = MsgHandle { msg_id: 7, channel_id: 9 };
    mgr.step(ManagerInput::Register("tok-1".to_string(), handle));
    match mgr.step(ManagerInput::Event(playing_event("tok-2"))) {
        ManagerAction::Continue => {}
        _ => panic!("an unknown token must still be dropped"),
    }
}

#[test]
fn registered_token_event_edits_its_message() {
    let mut mgr = PlayerEventsManager::new();
    let handle = MsgHandle { msg_id: 41, channel_id: 1001 };
    mgr.step(ManagerInput::Register("tok-9".to_string(), handle));
    match mgr.step(ManagerInput::Event(playing_event("tok-9"))) {
        ManagerAction::Edit(h, content) => {
            assert_eq!(h, handle);
            assert_eq!(content, "▶️ Foo - A, B - X");
        }
        _ => panic!("a registered token must lead to an edit"),
    }
}

#[test]
fn second_registration_replaces_the_first() {
    let mut mgr = PlayerEventsManager::new();
    mgr.register("tok".to_string(), MsgHandle { msg_id: 1, channel_id: 2 });
    let newer = MsgHandle { msg_id: 3, channel_id: 4 };
    mgr.register("tok".to_string(), newer);
    match mgr.handle_event(playing_event("tok")) {
        Some((h, _)) => assert_eq!(h, newer),
        None => panic!("token is registered"),
    }
}

#[test]
fn cancellation_stops_the_loop() {
    let mut mgr = PlayerEventsManager::new();
    match mgr.step(ManagerInput::Cancelled) {
        ManagerAction::Stop => {}
        _ => panic!("cancellation always wins"),
    }
}

#[test]
fn events_path_carries_the_token_query() {
    assert_eq!(
        player_events_path("abc123"),
        "/api/player_events?token=abc123"
    );
}
