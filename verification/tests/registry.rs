use speedwatch::apitypes::TwitchStream;
use speedwatch::registry::connect;
use speedwatch::streams::{poll_streamer, LiveSessions, StreamDecision};

#[test]
fn fresh_registry_is_empty() {
    let db = connect();
    assert!(db.get_runners().is_empty());
    assert!(db.get_streamers().is_empty());
}

#[test]
fn added_runner_round_trips() {
    let mut db = connect();
    db.add_runner("runner", "");
    let rows = db.get_runners();
    assert_eq!(rows.len(), 1);
    assert_eq!(rows[0].name, "runner");
    assert_eq!(rows[0].last_run, "");
}

#[test]
fn update_touches_every_row_with_the_name_and_no_other() {
    let mut db = connect();
    db.add_runner("dup", "old1");
    db.add_runner("other", "o");
    db.add_runner("dup", "old2");
    db.update_runner(String::from("dup"), String::from("new"));
    let rows = db.get_runners();
    assert_eq!(rows[0].last_run, "new");
    assert_eq!(rows[1].last_run, "o");
    assert_eq!(rows[2].last_run, "new");
}

#[test]
fn added_streamer_round_trips() {
    let mut db = connect();
    db.add_streamer("caster", "12345");
    let rows = db.get_streamers();
    assert_eq!(rows.len(), 1);
    assert_eq!(rows[0].streamer, "caster");
    assert_eq!(rows[0].streamer_id, "12345");
}

#[test]
fn duplicate_registration_keeps_one_session_per_name() {
    let mut db = connect();
    db.add_streamer("caster", "12345");
    db.add_streamer("caster", "12345");
    let rows = db.get_streamers();
    assert_eq!(rows.len(), 2);

    let obs = Some(TwitchStream {
        user_name: String::from("Caster"),
        title: String::from("live!"),
        game_name: String::from("Game"),
        thumbnail_url: String::from("t-{width}-{height}"),
    });
    let mut sessions = LiveSessions::new();
    let mut posted: usize = 0;
    for row in rows {
        match poll_streamer(&sessions, &row.streamer, &obs) {
            StreamDecision::WentLive { .. } => {
                posted += 1;
                sessions.insert(row.streamer.clone(), 7);
            }
            StreamDecision::Unchanged => {}
            other => panic!("unexpected decision {:?}", other),
        }
    }
    assert_eq!(posted, 1);
    assert_eq!(sessions.entries.len(), 1);
}
