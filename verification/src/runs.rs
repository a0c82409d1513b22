use crate::apitypes::{Game, Run, Variable};
use crate::embeds::{opt_view, EmbedField, EmbedSpec, COLOUR_DARK_ORANGE, COLOUR_GOLD,
    COLOUR_LIGHT_GREY, COLOUR_RED};
use crate::selection::{select_latest_run, spec_select};
use crate::strutil::{spec_dec, u64_to_string};
use crate::timefmt::{format_time, spec_format_time};
use vstd::prelude::*;

verus! {

// ---------------------------------------------------------------------------
// The per-runner polling decision
// ---------------------------------------------------------------------------

/// What one poll of a runner's personal-best listing calls for.
#[derive(Debug, PartialEq, Eq)]
pub enum RunDecision {
    /// No personal-best, or the latest one was already announced: nothing to
    /// do, the registry stays untouched.
    Unchanged,
    /// The run at `index` in the listing is newly selected and should be
    /// announced.
    NewRun { index: usize },
}

/// Decides whether the observed personal-best listing holds anything new
/// relative to the run id that was last acted upon. A repeated poll of an
/// unchanged listing decides `Unchanged`, so it triggers no notification and
/// leaves the registry alone.
pub fn poll_runner(last_notified_run_id: &String, runs: &Vec<Run>) -> (d: RunDecision)
    ensures
        match spec_select(runs@) {
            Option::None => d == RunDecision::Unchanged,
            Option::Some(r) => if r.run.id@ == last_notified_run_id@ {
                d == RunDecision::Unchanged
            } else {
                d matches RunDecision::NewRun { index } && index < runs@.len() && runs@[index
                    as int] == r
            },
        },
{
    match select_latest_run(runs) {
        Option::None => RunDecision::Unchanged,
        Option::Some(i) => {
            if runs[i].run.id == *last_notified_run_id {
                RunDecision::Unchanged
            } else {
                RunDecision::NewRun { index: i }
            }
        },
    }
}

/// The run id a newly registered runner starts from: the id of the latest
/// observed personal-best, or the empty string for a runner with none.
pub fn initial_run_id(latest: &Option<Run>) -> (r: String)
    ensures
        match latest {
            Option::Some(x) => r@ == x.run.id@,
            Option::None => r@ == Seq::<char>::empty(),
        },
{
    match latest {
        Option::Some(x) => String::from_str(x.run.id.as_str()),
        Option::None => String::new(),
    }
}

// ---------------------------------------------------------------------------
// Enrichment helpers
// ---------------------------------------------------------------------------

/// The label that a variable lookup gives to `key`: the first entry of the
/// value listing with that value id.
pub open spec fn spec_lookup(
    pairs: Seq<(String, crate::apitypes::VariableLabel)>,
    key: Seq<char>,
) -> Option<Seq<char>>
    decreases pairs.len(),
{
    if pairs.len() == 0 {
        Option::None
    } else if pairs[0].0@ == key {
        Option::Some(pairs[0].1.label@)
    } else {
        spec_lookup(pairs.drop_first(), key)
    }
}

/// Looks up the human-readable label of one variable value. Nothing when the
/// value id does not occur in the lookup data, which a caller treats as a
/// failed enrichment.
pub fn find_label(variable: &Variable, value_id: &String) -> (r: Option<String>)
    ensures
        opt_view(r) == spec_lookup(variable.values.values@, value_id@),
{
    let pairs = &variable.values.values;
    let mut i: usize = 0;
    proof {
        assert(pairs@.skip(0) =~= pairs@);
    }
    while i < pairs.len()
        invariant
            i <= pairs@.len(),
            pairs@ == variable.values.values@,
            spec_lookup(pairs@, value_id@) == spec_lookup(pairs@.skip(i as int), value_id@),
        decreases pairs@.len() - i,
    {
        let ghost rest = pairs@.skip(i as int);
        if pairs[i].0 == *value_id {
            proof {
                assert(rest.len() == pairs@.len() - i);
                assert(rest[0] == pairs@[i as int]);
                assert(spec_lookup(rest, value_id@) == Option::Some(rest[0].1.label@));
            }
            return Option::Some(String::from_str(pairs[i].1.label.as_str()));
        }
        proof {
            assert(rest[0] == pairs@[i as int]);
            assert(rest.drop_first() =~= pairs@.skip(i + 1));
        }
        i = i + 1;
    }
    Option::None
}

/// The listed labels joined with a comma and a space.
pub open spec fn spec_join(labels: Seq<Seq<char>>) -> Seq<char>
    decreases labels.len(),
{
    if labels.len() == 0 {
        Seq::empty()
    } else if labels.len() == 1 {
        labels[0]
    } else {
        spec_join(labels.drop_last()) + ", "@ + labels.last()
    }
}

/// Joins the variable labels into the display list, or nothing when there
/// are no variables (which is not an error).
pub fn join_labels(labels: &Vec<String>) -> (r: Option<String>)
    ensures
        labels@.len() == 0 <==> r is None,
        match r {
            Option::Some(s) => s@ == spec_join(labels@.map_values(|l: String| l@)),
            Option::None => labels@.len() == 0,
        },
{
    let ghost views = labels@.map_values(|l: String| l@);
    if labels.len() == 0 {
        return Option::None;
    }
    let mut s = String::from_str(labels[0].as_str());
    let mut i: usize = 1;
    proof {
        assert(views.take(1) =~= seq![labels@[0]@]);
    }
    while i < labels.len()
        invariant
            1 <= i <= labels@.len(),
            views == labels@.map_values(|l: String| l@),
            views.len() == labels@.len(),
            s@ == spec_join(views.take(i as int)),
        decreases labels@.len() - i,
    {
        s.append(", ");
        s.append(labels[i].as_str());
        proof {
            assert(views.take(i + 1).drop_last() =~= views.take(i as int));
            assert(views.take(i + 1).last() == labels@[i as int]@);
            assert(views.take(i + 1).len() == i + 1 >= 2);
        }
        i = i + 1;
    }
    proof {
        assert(views.take(views.len() as int) =~= views);
    }
    Option::Some(s)
}

// ---------------------------------------------------------------------------
// Building the announcement
// ---------------------------------------------------------------------------

/// The accent colour tier for a leaderboard place: gold, light grey and dark
/// orange for the podium, red for everything below.
pub open spec fn spec_rank_colour(place: u16) -> u32 {
    if place == 1 {
        COLOUR_GOLD
    } else if place == 2 {
        COLOUR_LIGHT_GREY
    } else if place == 3 {
        COLOUR_DARK_ORANGE
    } else {
        COLOUR_RED
    }
}

pub fn rank_colour(place: u16) -> (c: u32)
    ensures
        c == spec_rank_colour(place),
{
    if place == 1 {
        COLOUR_GOLD
    } else if place == 2 {
        COLOUR_LIGHT_GREY
    } else if place == 3 {
        COLOUR_DARK_ORANGE
    } else {
        COLOUR_RED
    }
}

/// The display list of the variables wrapped in parentheses, or nothing at
/// all when the run has no variables.
pub open spec fn spec_variables_suffix(vars: Option<Seq<char>>) -> Seq<char> {
    match vars {
        Option::Some(v) => " ("@ + v + ")"@,
        Option::None => Seq::empty(),
    }
}

/// The announcement title: game name, an em dash, the level name when the
/// run belongs to a level, the category name, and the variable list.
pub open spec fn spec_run_title(
    game: Seq<char>,
    level_name: Seq<char>,
    category: Seq<char>,
    vars: Option<Seq<char>>,
) -> Seq<char> {
    if level_name.len() == 0 {
        game + " — "@ + category + spec_variables_suffix(vars)
    } else {
        game + " — "@ + level_name + " "@ + category + spec_variables_suffix(vars)
    }
}

/// The announcement description: the formatted run time and the runner's
/// name, linking to the run's page.
pub open spec fn spec_run_description(
    time_ms: nat,
    runner: Seq<char>,
    weblink: Seq<char>,
) -> Seq<char> {
    "**["@ + spec_format_time(time_ms) + " by "@ + runner + "]("@ + weblink + ")**"@
}

/// What the announcement of a new run must hold, given the enrichment data:
/// the formatted title and description, the rank colour, the game's cover as
/// thumbnail, and the rank and play-date fields.
pub open spec fn run_embed_matches(
    e: EmbedSpec,
    run: Run,
    runner_name: Seq<char>,
    game: Game,
    category: Seq<char>,
    level_name: Seq<char>,
    vars: Option<Seq<char>>,
) -> bool {
    &&& e.title@ == spec_run_title(game.names.international@, level_name, category, vars)
    &&& e.description@ == spec_run_description(
        run.run.times.primary_ms as nat,
        runner_name,
        run.run.weblink@,
    )
    &&& e.url is None
    &&& e.colour == Option::Some(spec_rank_colour(run.place))
    &&& opt_view(e.thumbnail) == Option::Some(game.assets.cover_medium.uri@)
    &&& e.image is None
    &&& e.fields@.len() == 2
    &&& e.fields@[0].name@ == "Leaderboard rank:"@
    &&& e.fields@[0].value@ == spec_dec(run.place as nat)
    &&& e.fields@[0].inline == false
    &&& e.fields@[1].name@ == "Date played:"@
    &&& e.fields@[1].value@ == run.run.date@
    &&& e.fields@[1].inline == false
}

/// Builds the announcement for a newly selected run from the run itself and
/// its enrichment: game metadata, category name, level name (empty for a
/// full-game run) and the joined variable labels.
pub fn build_run_embed(
    run: &Run,
    runner_name: &String,
    game: &Game,
    category: &String,
    level_name: &String,
    variables: &Option<String>,
) -> (e: EmbedSpec)
    ensures
        run_embed_matches(
            e,
            *run,
            runner_name@,
            *game,
            category@,
            level_name@,
            opt_view(*variables),
        ),
{
    let mut title = String::from_str(game.names.international.as_str());
    title.append(" — ");
    if level_name.as_str().unicode_len() != 0 {
        title.append(level_name.as_str());
        title.append(" ");
    }
    title.append(category.as_str());
    match variables {
        Option::Some(v) => {
            title.append(" (");
            title.append(v.as_str());
            title.append(")");
        },
        Option::None => {},
    }
    proof {
        assert(title@ =~= spec_run_title(
            game.names.international@,
            level_name@,
            category@,
            opt_view(*variables),
        ));
    }

    let mut description = String::from_str("**[");
    let time = format_time(run.run.times.primary_ms);
    description.append(time.as_str());
    description.append(" by ");
    description.append(runner_name.as_str());
    description.append("](");
    description.append(run.run.weblink.as_str());
    description.append(")**");
    proof {
        assert(description@ =~= spec_run_description(
            run.run.times.primary_ms as nat,
            runner_name@,
            run.run.weblink@,
        ));
    }

    let mut fields: Vec<EmbedField> = Vec::new();
    fields.push(
        EmbedField {
            name: String::from_str("Leaderboard rank:"),
            value: u64_to_string(run.place as u64),
            inline: false,
        },
    );
    fields.push(
        EmbedField {
            name: String::from_str("Date played:"),
            value: String::from_str(run.run.date.as_str()),
            inline: false,
        },
    );

    EmbedSpec {
        title,
        description,
        url: Option::None,
        colour: Option::Some(rank_colour(run.place)),
        thumbnail: Option::Some(String::from_str(game.assets.cover_medium.uri.as_str())),
        image: Option::None,
        fields,
    }
}

} // verus!
