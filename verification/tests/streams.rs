use speedwatch::apitypes::TwitchStream;
use speedwatch::streams::{
    apply_went_offline, poll_streamer, DeleteOutcome, LiveSessions, StreamDecision,
};

fn stream() -> TwitchStream {
    TwitchStream {
        user_name: String::from("Streamer"),
        title: String::from("Casual runs"),
        game_name: String::from("Some Game"),
        thumbnail_url: String::from("https://cdn.invalid/thumb-{width}x{height}.jpg"),
    }
}

#[test]
fn went_live_fires_only_without_session() {
    let sessions = LiveSessions::new();
    let name = String::from("streamer");
    let d = poll_streamer(&sessions, &name, &Some(stream()));
    match d {
        StreamDecision::WentLive { embed } => {
            assert_eq!(embed.title, "Casual runs");
            assert_eq!(embed.description, "Streamer is streaming: Some Game");
            assert_eq!(embed.url.as_deref(), Some("https://www.twitch.tv/Streamer"));
            assert_eq!(
                embed.image.as_deref(),
                Some("https://cdn.invalid/thumb-1280x720.jpg")
            );
            assert_eq!(embed.colour, None);
            assert_eq!(embed.thumbnail, None);
            assert!(embed.fields.is_empty());
        }
        other => panic!("expected WentLive, got {:?}", other),
    }
}

#[test]
fn repoll_after_recording_handle_is_unchanged() {
    let mut sessions = LiveSessions::new();
    let name = String::from("streamer");
    let obs = Some(stream());
    match poll_streamer(&sessions, &name, &obs) {
        StreamDecision::WentLive { .. } => {}
        other => panic!("expected WentLive, got {:?}", other),
    }
    sessions.insert(name.clone(), 42);
    assert_eq!(poll_streamer(&sessions, &name, &obs), StreamDecision::Unchanged);
}

#[test]
fn offline_without_session_is_unchanged() {
    let sessions = LiveSessions::new();
    let name = String::from("streamer");
    assert_eq!(poll_streamer(&sessions, &name, &None), StreamDecision::Unchanged);
}

#[test]
fn offline_with_session_requests_deletion_of_recorded_handle() {
    let mut sessions = LiveSessions::new();
    let name = String::from("streamer");
    sessions.insert(name.clone(), 42);
    assert_eq!(
        poll_streamer(&sessions, &name, &None),
        StreamDecision::WentOffline { handle: 42 }
    );
}

#[test]
fn went_offline_removes_entry_on_success() {
    let mut sessions = LiveSessions::new();
    let name = String::from("streamer");
    sessions.insert(name.clone(), 42);
    apply_went_offline(&mut sessions, &name, DeleteOutcome::Deleted);
    assert!(!sessions.contains_name(&name));
}

#[test]
fn went_offline_removes_entry_when_message_already_absent() {
    let mut sessions = LiveSessions::new();
    let name = String::from("streamer");
    sessions.insert(name.clone(), 42);
    apply_went_offline(&mut sessions, &name, DeleteOutcome::AlreadyGone);
    assert!(!sessions.contains_name(&name));
}

#[test]
fn went_offline_keeps_entry_on_failure() {
    let mut sessions = LiveSessions::new();
    let name = String::from("streamer");
    sessions.insert(name.clone(), 42);
    apply_went_offline(&mut sessions, &name, DeleteOutcome::Failed);
    assert!(sessions.contains_name(&name));
    assert_eq!(sessions.handle_for(&name), Some(42));
}

#[test]
fn removal_keeps_other_streamers() {
    let mut sessions = LiveSessions::new();
    let one = String::from("one");
    let two = String::from("two");
    sessions.insert(one.clone(), 1);
    sessions.insert(two.clone(), 2);
    apply_went_offline(&mut sessions, &one, DeleteOutcome::Deleted);
    assert!(!sessions.contains_name(&one));
    assert_eq!(sessions.handle_for(&two), Some(2));
}

#[test]
fn thumbnail_substitutes_every_placeholder() {
    let sessions = LiveSessions::new();
    let name = String::from("streamer");
    let mut s = stream();
    s.thumbnail_url = String::from("a-{width}-b-{width}x{height}-c");
    match poll_streamer(&sessions, &name, &Some(s)) {
        StreamDecision::WentLive { embed } => {
            assert_eq!(embed.image.as_deref(), Some("a-1280-b-1280x720-c"));
        }
        other => panic!("expected WentLive, got {:?}", other),
    }
}

#[test]
fn thumbnail_without_placeholders_unchanged() {
    let sessions = LiveSessions::new();
    let name = String::from("streamer");
    let mut s = stream();
    s.thumbnail_url = String::from("https://cdn.invalid/plain.jpg");
    match poll_streamer(&sessions, &name, &Some(s)) {
        StreamDecision::WentLive { embed } => {
            assert_eq!(embed.image.as_deref(), Some("https://cdn.invalid/plain.jpg"));
        }
        other => panic!("expected WentLive, got {:?}", other),
    }
}
