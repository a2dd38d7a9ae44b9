use windrose_server_manager::clock::Timestamp;
use windrose_server_manager::players::{
    detect_player_event, match_join, match_leave, LineEvent, PlayerEventKind, PlayerRegistry,
};

#[test]
fn detects_join_has_joined() {
    assert_eq!(match_join("Player Rustbeard86 has joined"), Some("Rustbeard86".into()));
}

#[test]
fn detects_join_connected_quoted() {
    assert_eq!(match_join("[INFO] Player 'SomeUser' connected"), Some("SomeUser".into()));
}

#[test]
fn detects_join_client() {
    assert_eq!(match_join("Client Hero123 connected from 192.168.1.1"), Some("Hero123".into()));
}

#[test]
fn detects_leave_has_left() {
    assert_eq!(match_leave("Player Rustbeard86 has left"), Some("Rustbeard86".into()));
}

#[test]
fn detects_leave_disconnected() {
    assert_eq!(match_leave("[INFO] Player 'SomeUser' disconnected"), Some("SomeUser".into()));
}

#[test]
fn detects_leave_client() {
    assert_eq!(match_leave("Client Hero123 disconnected"), Some("Hero123".into()));
}

#[test]
fn no_match_on_unrelated_line() {
    assert_eq!(match_join("Server started on port 7777"), None);
    assert_eq!(match_leave("Server started on port 7777"), None);
}

#[test]
fn detects_bracketed_join_and_leave() {
    assert_eq!(match_join("[JOIN] Anne"), Some("Anne".into()));
    assert_eq!(match_leave("[leave] Anne"), Some("Anne".into()));
}

#[test]
fn join_is_looked_for_before_leave() {
    match detect_player_event("Player Bob has joined") {
        Some(LineEvent::Joined(n)) => assert_eq!(n, "Bob"),
        other => panic!("unexpected {:?}", other),
    }
    match detect_player_event("Client Bob disconnected") {
        Some(LineEvent::Left(n)) => assert_eq!(n, "Bob"),
        other => panic!("unexpected {:?}", other),
    }
    assert!(detect_player_event("nothing here").is_none());
}

fn at(secs: i64) -> Timestamp {
    Timestamp { secs, nanos: 0 }
}

#[test]
fn registry_tracks_joins_and_leaves() {
    let mut reg = PlayerRegistry::new(10);
    reg.player_joined("alice", at(1));
    reg.player_joined("bob", at(2));
    assert_eq!(reg.player_count(), 2);
    reg.player_left("alice", at(3));
    let players = reg.get_players();
    assert_eq!(players.len(), 1);
    assert_eq!(players[0].name, "bob");
    let events = reg.get_player_events();
    assert_eq!(events.len(), 3);
    assert_eq!(events[2].player_name, "alice");
    assert_eq!(events[2].kind, PlayerEventKind::Left);
    assert_eq!(events[2].timestamp, at(3));
}

#[test]
fn rejoin_updates_entry_without_duplicating() {
    let mut reg = PlayerRegistry::new(10);
    reg.player_joined("alice", at(1));
    reg.player_joined("alice", at(5));
    let players = reg.get_players();
    assert_eq!(players.len(), 1);
    assert_eq!(players[0].joined_at, at(5));
    assert_eq!(reg.get_player_events().len(), 2);
}

#[test]
fn leaving_player_not_online_only_logs_event() {
    let mut reg = PlayerRegistry::new(10);
    reg.player_joined("bob", at(1));
    reg.player_left("carol", at(2));
    assert_eq!(reg.player_count(), 1);
    assert_eq!(reg.get_player_events().len(), 2);
}

#[test]
fn event_history_is_bounded() {
    let mut reg = PlayerRegistry::new(2);
    reg.player_joined("a", at(1));
    reg.player_joined("b", at(2));
    reg.player_joined("c", at(3));
    let events = reg.get_player_events();
    assert_eq!(events.len(), 2);
    assert_eq!(events[0].player_name, "b");
    assert_eq!(events[1].player_name, "c");
}

#[test]
fn clear_players_keeps_history() {
    let mut reg = PlayerRegistry::new(5);
    reg.player_joined("a", at(1));
    reg.clear_players();
    assert_eq!(reg.player_count(), 0);
    assert_eq!(reg.get_player_events().len(), 1);
}

#[test]
fn players_response_counts_online() {
    let mut reg = PlayerRegistry::new(5);
    reg.player_joined("a", at(1));
    reg.player_joined("b", at(2));
    let resp = reg.players_response();
    assert_eq!(resp.online_count, 2);
    assert_eq!(resp.online.len(), 2);
    assert_eq!(resp.recent_events.len(), 2);
}
