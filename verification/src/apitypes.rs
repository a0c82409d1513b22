use vstd::prelude::*;

verus! {

// ---------------------------------------------------------------------------
// Speedrun leaderboard observations
// ---------------------------------------------------------------------------

/// Verification state of a run: the timestamp text under which the run was
/// verified, or nothing for a run that has not been verified yet.
#[derive(Debug, PartialEq, Eq)]
pub struct RunStatus {
    pub verify_date: Option<String>,
}

/// The recorded times of a run. The primary time is held in whole
/// milliseconds.
#[derive(Debug, PartialEq, Eq)]
pub struct Times {
    pub primary_ms: u64,
}

/// One observed run: identifiers for the game, the category, the optional
/// level, the run-defining variables as `(variable id, value id)` pairs, and
/// the presentation data the notification needs.
#[derive(Debug, PartialEq, Eq)]
pub struct RunData {
    pub id: String,
    pub category: String,
    pub game: String,
    pub level: Option<String>,
    pub status: RunStatus,
    pub values: Vec<(String, String)>,
    pub weblink: String,
    pub times: Times,
    pub date: String,
}

/// A personal-best observation: a run together with its leaderboard place.
#[derive(Debug, PartialEq, Eq)]
pub struct Run {
    pub place: u16,
    pub run: RunData,
}

/// The personal-best listing for one runner, or nothing when the listing was
/// absent.
#[derive(Debug, PartialEq, Eq)]
pub struct RunResponse {
    pub data: Option<Vec<Run>>,
}

// ---------------------------------------------------------------------------
// Game, category, level and variable lookups
// ---------------------------------------------------------------------------

#[derive(Debug, PartialEq, Eq)]
pub struct GameNames {
    pub international: String,
}

#[derive(Debug, PartialEq, Eq)]
pub struct Asset {
    pub uri: String,
}

#[derive(Debug, PartialEq, Eq)]
pub struct GameAssets {
    pub cover_medium: Asset,
}

/// Game metadata: display name and cover art.
#[derive(Debug, PartialEq, Eq)]
pub struct Game {
    pub id: String,
    pub names: GameNames,
    pub assets: GameAssets,
}

#[derive(Debug, PartialEq, Eq)]
pub struct GameResponse {
    pub data: Game,
}

#[derive(Debug, PartialEq, Eq)]
pub struct Category {
    pub name: String,
}

#[derive(Debug, PartialEq, Eq)]
pub struct CategoryResponse {
    pub data: Category,
}

#[derive(Debug, PartialEq, Eq)]
pub struct Level {
    pub name: String,
}

#[derive(Debug, PartialEq, Eq)]
pub struct LevelResponse {
    pub data: Level,
}

/// The label of one value of a run-defining variable.
#[derive(Debug, PartialEq, Eq)]
pub struct VariableLabel {
    pub label: String,
}

/// The labelled values of one variable, as `(value id, label)` pairs.
#[derive(Debug, PartialEq, Eq)]
pub struct VariableValues {
    pub values: Vec<(String, VariableLabel)>,
}

#[derive(Debug, PartialEq, Eq)]
pub struct Variable {
    pub values: VariableValues,
}

#[derive(Debug, PartialEq, Eq)]
pub struct VariableResponse {
    pub data: Variable,
}

// ---------------------------------------------------------------------------
// Stream platform observations
// ---------------------------------------------------------------------------

/// A broadcaster account, as resolved from a handle.
#[derive(Debug, PartialEq, Eq)]
pub struct TwitchUser {
    pub id: String,
}

#[derive(Debug, PartialEq, Eq)]
pub struct TwitchUserResponse {
    pub data: Vec<TwitchUser>,
}

/// One live-stream observation: the title, the display name of the
/// broadcaster, the game shown, and the thumbnail template with `{width}`
/// and `{height}` placeholders.
#[derive(Debug, PartialEq, Eq)]
pub struct TwitchStream {
    pub user_name: String,
    pub title: String,
    pub game_name: String,
    pub thumbnail_url: String,
}

#[derive(Debug, PartialEq, Eq)]
pub struct TwitchStreamResponse {
    pub data: Vec<TwitchStream>,
}

} // verus!
