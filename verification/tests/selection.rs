use speedwatch::apitypes::{Run, RunData, RunStatus, Times};
use speedwatch::runs::{poll_runner, RunDecision};

fn run(id: &str, verify_date: Option<&str>) -> Run {
    Run {
        place: 1,
        run: RunData {
            id: String::from(id),
            category: String::from("cat"),
            game: String::from("game"),
            level: None,
            status: RunStatus {
                verify_date: verify_date.map(String::from),
            },
            values: Vec::new(),
            weblink: String::from("https://example.invalid/run"),
            times: Times { primary_ms: 1000 },
            date: String::from("2024-01-01"),
        },
    }
}

fn select(runs: &Vec<Run>) -> Option<usize> {
    speedwatch::selection::select_latest_run(runs)
}

#[test]
fn empty_listing_selects_nothing() {
    let runs: Vec<Run> = Vec::new();
    assert_eq!(select(&runs), None);
}

#[test]
fn single_run_selected() {
    let runs = vec![run("a", Some("2024-01-01T00:00:00Z"))];
    assert_eq!(select(&runs), Some(0));
}

#[test]
fn latest_verified_wins() {
    let runs = vec![
        run("a", Some("2024-01-01T00:00:00Z")),
        run("b", Some("2024-03-01T00:00:00Z")),
        run("c", Some("2024-02-01T00:00:00Z")),
    ];
    assert_eq!(select(&runs), Some(1));
}

#[test]
fn order_invariant_for_distinct_dates() {
    let forward = vec![
        run("a", Some("2024-01-01T00:00:00Z")),
        run("b", Some("2024-03-01T00:00:00Z")),
        run("c", Some("2024-02-01T00:00:00Z")),
    ];
    let backward = vec![
        run("c", Some("2024-02-01T00:00:00Z")),
        run("b", Some("2024-03-01T00:00:00Z")),
        run("a", Some("2024-01-01T00:00:00Z")),
    ];
    let f = select(&forward).map(|i| forward[i].run.id.clone());
    let b = select(&backward).map(|i| backward[i].run.id.clone());
    assert_eq!(f, Some(String::from("b")));
    assert_eq!(f, b);
}

#[test]
fn unverified_run_wins_regardless_of_date() {
    let first = vec![run("v", Some("2024-03-01T00:00:00Z")), run("u", None)];
    let second = vec![run("u", None), run("v", Some("2024-03-01T00:00:00Z"))];
    let a = select(&first).map(|i| first[i].run.id.clone());
    let b = select(&second).map(|i| second[i].run.id.clone());
    assert_eq!(a, Some(String::from("u")));
    assert_eq!(b, Some(String::from("u")));
}

#[test]
fn unchanged_when_selected_run_already_notified() {
    let runs = vec![
        run("a", Some("2024-01-01T00:00:00Z")),
        run("b", Some("2024-03-01T00:00:00Z")),
    ];
    let last = String::from("b");
    assert_eq!(poll_runner(&last, &runs), RunDecision::Unchanged);
}

#[test]
fn new_run_decided_when_id_differs() {
    let runs = vec![
        run("a", Some("2024-01-01T00:00:00Z")),
        run("b", Some("2024-03-01T00:00:00Z")),
    ];
    let last = String::from("a");
    assert_eq!(poll_runner(&last, &runs), RunDecision::NewRun { index: 1 });
}

#[test]
fn empty_listing_decides_unchanged() {
    let runs: Vec<Run> = Vec::new();
    let last = String::from("");
    assert_eq!(poll_runner(&last, &runs), RunDecision::Unchanged);
}

#[test]
fn never_notified_runner_gets_new_run() {
    let runs = vec![run("a", Some("2024-01-01T00:00:00Z"))];
    let last = String::from("");
    assert_eq!(poll_runner(&last, &runs), RunDecision::NewRun { index: 0 });
}

#[test]
fn dates_compared_down_to_the_second() {
    let runs = vec![
        run("a", Some("2024-01-01T00:00:01Z")),
        run("b", Some("2024-01-01T00:00:00Z")),
    ];
    assert_eq!(select(&runs), Some(0));
    let runs = vec![
        run("a", Some("2024-01-01T00:00:00Z")),
        run("b", Some("2024-01-01T00:00:01Z")),
    ];
    assert_eq!(select(&runs), Some(1));
}

#[test]
fn verified_run_never_displaces_unverified_held_candidate() {
    let runs = vec![
        run("u", None),
        run("a", Some("2024-01-01T00:00:00Z")),
        run("b", Some("2024-06-01T00:00:00Z")),
    ];
    let picked = select(&runs).map(|i| runs[i].run.id.clone());
    assert_eq!(picked, Some(String::from("u")));
}
