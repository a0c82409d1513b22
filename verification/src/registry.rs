use vstd::prelude::*;

verus! {

/// A tracked runner row: the runner's name (the leaderboard identifier) and
/// the id of the last run that was notified — empty for a runner never
/// notified yet.
#[derive(Debug, PartialEq, Eq)]
pub struct Runner {
    pub name: String,
    pub last_run: String,
}

/// A tracked streamer row: the streamer's name and the platform user id
/// resolved once at registration time.
#[derive(Debug, PartialEq, Eq)]
pub struct Streamer {
    pub streamer: String,
    pub streamer_id: String,
}

/// The registry of tracked entities: runner and streamer rows in insertion
/// order. The store enforces no uniqueness, so registering a name twice
/// simply yields two rows; the polling loops are what keep notifications
/// keyed by name. A caller that wants durability mirrors every mutation to
/// its own storage.
pub struct Database {
    pub runners: Vec<Runner>,
    pub streamers: Vec<Streamer>,
}

/// Opens a fresh, empty registry.
pub fn connect() -> (db: Database)
    ensures
        db.runners@.len() == 0,
        db.streamers@.len() == 0,
{
    Database { runners: Vec::new(), streamers: Vec::new() }
}

impl Database {
    /// Appends a runner row; every existing row is untouched.
    pub fn add_runner(&mut self, runner: &str, last_run: &str)
        ensures
            final(self).runners@.len() == old(self).runners@.len() + 1,
            forall|i: int|
                0 <= i < old(self).runners@.len() ==> final(self).runners@[i] == old(
                    self,
                ).runners@[i],
            final(self).runners@.last().name@ == runner@,
            final(self).runners@.last().last_run@ == last_run@,
            final(self).streamers == old(self).streamers,
    {
        self.runners.push(
            Runner { name: String::from_str(runner), last_run: String::from_str(last_run) },
        );
    }

    /// Records that a runner was notified of a run: sets the last notified
    /// run id on every row bearing the runner's name, and nothing else.
    pub fn update_runner(&mut self, runner: String, last_run: String)
        ensures
            final(self).runners@.len() == old(self).runners@.len(),
            forall|i: int|
                0 <= i < old(self).runners@.len() && old(self).runners@[i].name@ == runner@ ==> (
                final(self).runners@[i].name == old(self).runners@[i].name
                    && final(self).runners@[i].last_run@ == last_run@),
            forall|i: int|
                0 <= i < old(self).runners@.len() && old(self).runners@[i].name@ != runner@
                    ==> final(self).runners@[i] == old(self).runners@[i],
            final(self).streamers == old(self).streamers,
    {
        let mut i: usize = 0;
        while i < self.runners.len()
            invariant
                self.runners@.len() == old(self).runners@.len(),
                i <= self.runners@.len(),
                forall|j: int|
                    0 <= j < old(self).runners@.len() && !(0 <= j < i) ==> self.runners@[j]
                        == old(self).runners@[j],
                forall|j: int|
                    0 <= j < i && old(self).runners@[j].name@ == runner@ ==> self.runners@[j].name
                        == old(self).runners@[j].name && self.runners@[j].last_run@ == last_run@,
                forall|j: int|
                    0 <= j < i && old(self).runners@[j].name@ != runner@ ==> self.runners@[j]
                        == old(self).runners@[j],
                self.streamers == old(self).streamers,
            decreases self.runners@.len() - i,
        {
            if self.runners[i].name == runner {
                self.runners[i].last_run = String::from_str(last_run.as_str());
            }
            i = i + 1;
        }
    }

    /// All runner rows, in insertion order.
    pub fn get_runners(&self) -> (r: Vec<Runner>)
        ensures
            r@ == self.runners@,
    {
        let mut out: Vec<Runner> = Vec::new();
        let mut i: usize = 0;
        while i < self.runners.len()
            invariant
                i <= self.runners@.len(),
                out@ == self.runners@.take(i as int),
            decreases self.runners@.len() - i,
        {
            let row = Runner {
                name: self.runners[i].name.clone(),
                last_run: self.runners[i].last_run.clone(),
            };
            proof {
                assert(row == self.runners@[i as int]);
            }
            out.push(row);
            proof {
                assert(self.runners@.take(i + 1).drop_last() =~= self.runners@.take(i as int));
                assert(self.runners@.take(i + 1).last() == self.runners@[i as int]);
                assert(out@ =~= self.runners@.take(i + 1));
            }
            i = i + 1;
        }
        proof {
            assert(self.runners@.take(self.runners@.len() as int) =~= self.runners@);
        }
        out
    }

    /// Appends a streamer row; every existing row is untouched.
    pub fn add_streamer(&mut self, streamer: &str, streamer_id: &str)
        ensures
            final(self).streamers@.len() == old(self).streamers@.len() + 1,
            forall|i: int|
                0 <= i < old(self).streamers@.len() ==> final(self).streamers@[i] == old(
                    self,
                ).streamers@[i],
            final(self).streamers@.last().streamer@ == streamer@,
            final(self).streamers@.last().streamer_id@ == streamer_id@,
            final(self).runners == old(self).runners,
    {
        self.streamers.push(
            Streamer {
                streamer: String::from_str(streamer),
                streamer_id: String::from_str(streamer_id),
            },
        );
    }

    /// All streamer rows, in insertion order.
    pub fn get_streamers(&self) -> (r: Vec<Streamer>)
        ensures
            r@ == self.streamers@,
    {
        let mut out: Vec<Streamer> = Vec::new();
        let mut i: usize = 0;
        while i < self.streamers.len()
            invariant
                i <= self.streamers@.len(),
                out@ == self.streamers@.take(i as int),
            decreases self.streamers@.len() - i,
        {
            let row = Streamer {
                streamer: self.streamers[i].streamer.clone(),
                streamer_id: self.streamers[i].streamer_id.clone(),
            };
            proof {
                assert(row == self.streamers@[i as int]);
            }
            out.push(row);
            proof {
                assert(self.streamers@.take(i + 1).drop_last() =~= self.streamers@.take(i as int));
                assert(self.streamers@.take(i + 1).last() == self.streamers@[i as int]);
                assert(out@ =~= self.streamers@.take(i + 1));
            }
            i = i + 1;
        }
        proof {
            assert(self.streamers@.take(self.streamers@.len() as int) =~= self.streamers@);
        }
        out
    }
}

} // verus!
