use crate::apitypes::TwitchStream;
use crate::embeds::{opt_view, EmbedField, EmbedSpec};
use crate::strutil::{replace_all, spec_replace};
use vstd::prelude::*;

verus! {

// ---------------------------------------------------------------------------
// The in-memory live-session table
// ---------------------------------------------------------------------------

/// Whether the table holds an entry for `name`.
pub open spec fn has_key(s: Seq<(Seq<char>, u64)>, name: Seq<char>) -> bool {
    exists|i: int| 0 <= i < s.len() && s[i].0 == name
}

/// The index of the entry for `name`.
pub open spec fn key_index(s: Seq<(Seq<char>, u64)>, name: Seq<char>) -> int {
    choose|i: int| 0 <= i < s.len() && s[i].0 == name
}

/// The notification handle recorded for `name`.
pub open spec fn handle_of(s: Seq<(Seq<char>, u64)>, name: Seq<char>) -> u64 {
    s[key_index(s, name)].1
}

/// The table of outstanding "now live" notifications, keyed by streamer
/// name. An entry is present exactly while a notification is outstanding.
/// Nothing here is persisted: after a restart the table starts empty.
pub struct LiveSessions {
    pub entries: Vec<(String, u64)>,
}

impl LiveSessions {
    /// The entries as `(name, handle)` pairs.
    pub open spec fn sessions(self) -> Seq<(Seq<char>, u64)> {
        self.entries@.map_values(|p: (String, u64)| (p.0@, p.1))
    }

    /// A streamer has at most one outstanding notification: the keys are
    /// distinct.
    pub open spec fn wf(self) -> bool {
        forall|i: int, j: int|
            0 <= i < j < self.sessions().len() ==> self.sessions()[i].0 != self.sessions()[j].0
    }

    /// An empty table: no notification is outstanding.
    pub fn new() -> (s: Self)
        ensures
            s.wf(),
            s.sessions().len() == 0,
    {
        let s = LiveSessions { entries: Vec::new() };
        proof {
            assert(s.sessions() =~= Seq::<(Seq<char>, u64)>::empty());
        }
        s
    }

    /// Whether a notification is outstanding for `name`.
    pub fn contains_name(&self, name: &String) -> (r: bool)
        ensures
            r == has_key(self.sessions(), name@),
    {
        let mut i: usize = 0;
        while i < self.entries.len()
            invariant
                i <= self.entries@.len(),
                forall|j: int| 0 <= j < i ==> self.sessions()[j].0 != name@,
            decreases self.entries@.len() - i,
        {
            if self.entries[i].0 == *name {
                proof {
                    assert(self.sessions()[i as int].0 == name@);
                }
                return true;
            }
            i = i + 1;
        }
        proof {
            if has_key(self.sessions(), name@) {
                let j = choose|j: int|
                    0 <= j < self.sessions().len() && self.sessions()[j].0 == name@;
                assert(self.sessions()[j].0 != name@);
            }
        }
        false
    }

    /// The handle recorded for `name`, when one is outstanding.
    pub fn handle_for(&self, name: &String) -> (r: Option<u64>)
        requires
            self.wf(),
        ensures
            match r {
                Option::Some(h) => has_key(self.sessions(), name@) && h == handle_of(
                    self.sessions(),
                    name@,
                ),
                Option::None => !has_key(self.sessions(), name@),
            },
    {
        let mut i: usize = 0;
        while i < self.entries.len()
            invariant
                self.wf(),
                i <= self.entries@.len(),
                forall|j: int| 0 <= j < i ==> self.sessions()[j].0 != name@,
            decreases self.entries@.len() - i,
        {
            if self.entries[i].0 == *name {
                proof {
                    assert(self.sessions()[i as int].0 == name@);
                    let k = key_index(self.sessions(), name@);
                    assert(0 <= k < self.sessions().len() && self.sessions()[k].0 == name@);
                    if k != i {
                        assert(self.sessions()[k].0 != self.sessions()[i as int].0);
                    }
                }
                return Option::Some(self.entries[i].1);
            }
            i = i + 1;
        }
        proof {
            if has_key(self.sessions(), name@) {
                let j = choose|j: int|
                    0 <= j < self.sessions().len() && self.sessions()[j].0 == name@;
                assert(self.sessions()[j].0 != name@);
            }
        }
        Option::None
    }

    /// Records the handle of a freshly posted "now live" notification.
    pub fn insert(&mut self, name: String, handle: u64)
        requires
            old(self).wf(),
            !has_key(old(self).sessions(), name@),
        ensures
            final(self).wf(),
            final(self).sessions() == old(self).sessions().push((name@, handle)),
    {
        let ghost pre = self.sessions();
        self.entries.push((name, handle));
        proof {
            assert(self.sessions() =~= pre.push((name@, handle)));
            assert forall|i: int, j: int|
                0 <= i < j < self.sessions().len() implies self.sessions()[i].0
                != self.sessions()[j].0 by {
                if j == self.sessions().len() - 1 {
                    if self.sessions()[i].0 == name@ {
                        assert(pre[i].0 == name@);
                        assert(has_key(pre, name@));
                    }
                }
            }
        }
    }

    /// Drops the entry for `name`, if one is present; every other entry
    /// stays as it was.
    pub fn remove_name(&mut self, name: &String)
        requires
            old(self).wf(),
        ensures
            final(self).wf(),
            !has_key(old(self).sessions(), name@) ==> final(self).sessions() == old(
                self,
            ).sessions(),
            has_key(old(self).sessions(), name@) ==> final(self).sessions() == old(
                self,
            ).sessions().remove(key_index(old(self).sessions(), name@)),
            !has_key(final(self).sessions(), name@),
    {
        let ghost pre = self.sessions();
        let mut i: usize = 0;
        while i < self.entries.len()
            invariant
                self.wf(),
                self.sessions() == pre,
                pre == old(self).sessions(),
                i <= self.entries@.len(),
                forall|j: int| 0 <= j < i ==> self.sessions()[j].0 != name@,
            decreases self.entries@.len() - i,
        {
            if self.entries[i].0 == *name {
                proof {
                    assert(pre[i as int].0 == name@);
                    let k = key_index(pre, name@);
                    assert(0 <= k < pre.len() && pre[k].0 == name@);
                    if k != i {
                        if k < i {
                            assert(pre[k].0 != pre[i as int].0);
                        } else {
                            assert(pre[i as int].0 != pre[k].0);
                        }
                    }
                }
                self.entries.remove(i);
                proof {
                    assert(self.sessions() =~= pre.remove(i as int));
                    assert forall|j: int|
                        0 <= j < self.sessions().len() implies self.sessions()[j].0 != name@ by {
                        if j < i {
                            assert(self.sessions()[j] == pre[j]);
                        } else {
                            assert(self.sessions()[j] == pre[j + 1]);
                        }
                    }
                }
                return ;
            }
            i = i + 1;
        }
        proof {
            if has_key(pre, name@) {
                let j = choose|j: int| 0 <= j < pre.len() && pre[j].0 == name@;
                assert(pre[j].0 != name@);
            }
        }
    }
}

// ---------------------------------------------------------------------------
// The per-streamer polling decision
// ---------------------------------------------------------------------------

/// How the notification sink reported a deletion request.
#[derive(Debug, PartialEq, Eq)]
pub enum DeleteOutcome {
    /// The notification was deleted.
    Deleted,
    /// The notification was already absent; tolerated, the session entry is
    /// dropped all the same.
    AlreadyGone,
    /// The deletion failed; the session entry is kept so the deletion is
    /// retried on the next sweep.
    Failed,
}

/// What one poll of a streamer's live status calls for.
#[derive(Debug, PartialEq, Eq)]
pub enum StreamDecision {
    /// The observed status already matches the outstanding notification:
    /// nothing to do. In particular a streamer who stays live is not
    /// announced again.
    Unchanged,
    /// The streamer came live: post this notification and record the
    /// returned handle under the streamer's name.
    WentLive { embed: EmbedSpec },
    /// The streamer went offline: request deletion of the recorded
    /// notification.
    WentOffline { handle: u64 },
}

/// The decision is to announce: the observation is live and no notification
/// is outstanding.
pub open spec fn decision_is_went_live(has_session: bool, live: bool) -> bool {
    live && !has_session
}

/// The decision is to retract: the observation is offline while a
/// notification is outstanding.
pub open spec fn decision_is_went_offline(has_session: bool, live: bool) -> bool {
    !live && has_session
}

/// The decision is to do nothing: the outstanding notification already
/// mirrors the observation.
pub open spec fn decision_is_unchanged(has_session: bool, live: bool) -> bool {
    live == has_session
}

/// What the "now live" notification must hold: the stream title, the
/// description naming the broadcaster and the game, the channel link, and
/// the thumbnail template with its placeholders substituted for the fixed
/// target resolution.
pub open spec fn stream_embed_matches(e: EmbedSpec, s: TwitchStream) -> bool {
    &&& e.title@ == s.title@
    &&& e.description@ == s.user_name@ + " is streaming: "@ + s.game_name@
    &&& opt_view(e.url) == Option::Some("https://www.twitch.tv/"@ + s.user_name@)
    &&& e.colour is None
    &&& e.thumbnail is None
    &&& opt_view(e.image) == Option::Some(
        spec_replace(
            spec_replace(s.thumbnail_url@, "{width}"@, "1280"@),
            "{height}"@,
            "720"@,
        ),
    )
    &&& e.fields@.len() == 0
}

/// Builds the "now live" notification for a stream observation.
pub fn build_stream_embed(stream: &TwitchStream) -> (e: EmbedSpec)
    ensures
        stream_embed_matches(e, *stream),
{
    let mut description = String::from_str(stream.user_name.as_str());
    description.append(" is streaming: ");
    description.append(stream.game_name.as_str());

    let mut url = String::from_str("https://www.twitch.tv/");
    url.append(stream.user_name.as_str());

    proof {
        reveal_strlit("{width}");
        reveal_strlit("{height}");
    }
    let with_width = replace_all(stream.thumbnail_url.as_str(), "{width}", "1280");
    let image = replace_all(with_width.as_str(), "{height}", "720");

    let fields: Vec<EmbedField> = Vec::new();
    let e = EmbedSpec {
        title: String::from_str(stream.title.as_str()),
        description,
        url: Option::Some(url),
        colour: Option::None,
        thumbnail: Option::None,
        image: Option::Some(image),
        fields,
    };
    e
}

/// Decides what one poll of a streamer calls for, from the live-session
/// table and the observation. A live streamer with an outstanding
/// notification and an offline streamer with none both decide `Unchanged`.
pub fn poll_streamer(sessions: &LiveSessions, streamer_name: &String, observation: &Option<
    TwitchStream,
>) -> (d: StreamDecision)
    requires
        sessions.wf(),
    ensures
        ({
            let has = has_key(sessions.sessions(), streamer_name@);
            let live = observation is Some;
            match d {
                StreamDecision::Unchanged => decision_is_unchanged(has, live),
                StreamDecision::WentLive { embed } => decision_is_went_live(has, live)
                    && stream_embed_matches(embed, observation->0),
                StreamDecision::WentOffline { handle } => decision_is_went_offline(has, live)
                    && handle == handle_of(sessions.sessions(), streamer_name@),
            }
        }),
{
    match observation {
        Option::Some(stream) => {
            if sessions.contains_name(streamer_name) {
                StreamDecision::Unchanged
            } else {
                StreamDecision::WentLive { embed: build_stream_embed(stream) }
            }
        },
        Option::None => {
            match sessions.handle_for(streamer_name) {
                Option::Some(handle) => StreamDecision::WentOffline { handle },
                Option::None => StreamDecision::Unchanged,
            }
        },
    }
}

/// Applies the sink's answer to a `WentOffline` decision: the entry is
/// removed on success and also when the notification was already absent;
/// only an outright failure keeps it for a retry on the next sweep.
pub fn apply_went_offline(sessions: &mut LiveSessions, streamer_name: &String,
    outcome: DeleteOutcome)
    requires
        old(sessions).wf(),
    ensures
        final(sessions).wf(),
        outcome != DeleteOutcome::Failed ==> !has_key(
            final(sessions).sessions(),
            streamer_name@,
        ),
        outcome != DeleteOutcome::Failed && has_key(old(sessions).sessions(), streamer_name@)
            ==> final(sessions).sessions() == old(sessions).sessions().remove(
            key_index(old(sessions).sessions(), streamer_name@),
        ),
        outcome != DeleteOutcome::Failed && !has_key(old(sessions).sessions(), streamer_name@)
            ==> final(sessions).sessions() == old(sessions).sessions(),
        outcome == DeleteOutcome::Failed ==> final(sessions).sessions() == old(
            sessions,
        ).sessions(),
{
    match outcome {
        DeleteOutcome::Deleted => sessions.remove_name(streamer_name),
        DeleteOutcome::AlreadyGone => sessions.remove_name(streamer_name),
        DeleteOutcome::Failed => {},
    }
}

/// Law: an announcement fires only while no notification is outstanding,
/// and once its handle is recorded, a repeated poll with the streamer still
/// live decides `Unchanged`.
pub proof fn lemma_went_live_once(s: Seq<(Seq<char>, u64)>, name: Seq<char>, handle: u64)
    requires
        decision_is_went_live(has_key(s, name), true),
    ensures
        !has_key(s, name),
        decision_is_unchanged(has_key(s.push((name, handle)), name), true),
{
    assert(s.push((name, handle))[s.len() as int].0 == name);
}

} // verus!
