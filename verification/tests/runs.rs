use speedwatch::apitypes::{
    Asset, Game, GameAssets, GameNames, Run, RunData, RunStatus, Times, Variable, VariableLabel,
    VariableValues,
};
use speedwatch::config::get_config;
use speedwatch::runs::{build_run_embed, find_label, initial_run_id, join_labels, rank_colour};

fn sample_run(place: u16) -> Run {
    Run {
        place,
        run: RunData {
            id: String::from("runid"),
            category: String::from("catid"),
            game: String::from("gameid"),
            level: None,
            status: RunStatus { verify_date: Some(String::from("2024-01-02T03:04:05Z")) },
            values: Vec::new(),
            weblink: String::from("https://example.invalid/run/runid"),
            times: Times { primary_ms: 65_000 },
            date: String::from("2024-01-01"),
        },
    }
}

fn sample_game() -> Game {
    Game {
        id: String::from("gameid"),
        names: GameNames { international: String::from("Great Game") },
        assets: GameAssets {
            cover_medium: Asset { uri: String::from("https://example.invalid/cover.png") },
        },
    }
}

#[test]
fn rank_colours_have_four_tiers() {
    assert_eq!(rank_colour(1), 0xF1C40F);
    assert_eq!(rank_colour(2), 0x979C9F);
    assert_eq!(rank_colour(3), 0xA84300);
    assert_eq!(rank_colour(4), 0xE74C3C);
    assert_eq!(rank_colour(100), 0xE74C3C);
}

#[test]
fn embed_for_full_game_run_without_variables() {
    let run = sample_run(1);
    let game = sample_game();
    let runner = String::from("runnername");
    let category = String::from("Any%");
    let level = String::from("");
    let e = build_run_embed(&run, &runner, &game, &category, &level, &None);
    assert_eq!(e.title, "Great Game — Any%");
    assert_eq!(
        e.description,
        "**[1m 5s by runnername](https://example.invalid/run/runid)**"
    );
    assert_eq!(e.colour, Some(0xF1C40F));
    assert_eq!(e.thumbnail.as_deref(), Some("https://example.invalid/cover.png"));
    assert_eq!(e.url, None);
    assert_eq!(e.image, None);
    assert_eq!(e.fields.len(), 2);
    assert_eq!(e.fields[0].name, "Leaderboard rank:");
    assert_eq!(e.fields[0].value, "1");
    assert!(!e.fields[0].inline);
    assert_eq!(e.fields[1].name, "Date played:");
    assert_eq!(e.fields[1].value, "2024-01-01");
    assert!(!e.fields[1].inline);
}

#[test]
fn embed_with_level_and_variables() {
    let run = sample_run(5);
    let game = sample_game();
    let runner = String::from("runnername");
    let category = String::from("Any%");
    let level = String::from("World 1");
    let vars = Some(String::from("Glitchless, PC"));
    let e = build_run_embed(&run, &runner, &game, &category, &level, &vars);
    assert_eq!(e.title, "Great Game — World 1 Any% (Glitchless, PC)");
    assert_eq!(e.colour, Some(0xE74C3C));
}

#[test]
fn label_lookup_finds_value() {
    let variable = Variable {
        values: VariableValues {
            values: vec![
                (String::from("v1"), VariableLabel { label: String::from("Glitchless") }),
                (String::from("v2"), VariableLabel { label: String::from("PC") }),
            ],
        },
    };
    let found = find_label(&variable, &String::from("v2"));
    assert_eq!(found.as_deref(), Some("PC"));
}

#[test]
fn label_lookup_misses_unknown_value() {
    let variable = Variable { values: VariableValues { values: Vec::new() } };
    assert_eq!(find_label(&variable, &String::from("v1")), None);
}

#[test]
fn joined_labels() {
    assert_eq!(join_labels(&Vec::new()), None);
    assert_eq!(join_labels(&vec![String::from("A")]).as_deref(), Some("A"));
    assert_eq!(
        join_labels(&vec![String::from("A"), String::from("B"), String::from("C")]).as_deref(),
        Some("A, B, C")
    );
}

#[test]
fn initial_run_id_uses_latest_or_empty() {
    assert_eq!(initial_run_id(&Some(sample_run(1))), "runid");
    assert_eq!(initial_run_id(&None), "");
}

#[test]
fn config_holds_its_credentials() {
    let c = get_config(
        String::from("token"),
        String::from("client"),
        String::from("oauth"),
    );
    assert_eq!(c.discord_token, "token");
    assert_eq!(c.twitch_client_id, "client");
    assert_eq!(c.twitch_oauth, "oauth");
}
