//! Watching every process of a name: each tick looks up the ids of the
//! processes so named and has a silent id watch started for each; the
//! watch ends at the first tick that finds none.
use vstd::prelude::*;
use crate::command::{name_query, CommandLine, WatchResult};
use crate::text::{lossy_text, pid_list, pids_in_output};

verus! {

/// What a lookup of the name gave.
pub enum Lookup {
    /// The lookup tool could not be run, for this reason.
    Failed(String),
    /// The lookup tool ran and printed this.
    Printed(Vec<u8>),
}

/// What a name watch asks of its caller after a tick. Either way the
/// caller learns nothing more of the watches it starts.
pub enum NameStep {
    /// Start a silent watch on each of these ids, then sleep one interval
    /// and tick again.
    Spawn(Vec<u32>),
    /// Stop the progress indicator; the watch is over with this result.
    Finish(WatchResult),
}

/// The state of a watch on the processes of one name.
pub struct NameWatch {
    pub name: String,
    /// The number of ticks taken so far (it stops growing at `u64::MAX`).
    pub ticks: u64,
    /// Set once the watch has ended.
    pub finished: bool,
}

pub open spec fn bump(n: u64) -> u64 {
    if n < u64::MAX {
        (n + 1) as u64
    } else {
        n
    }
}

impl NameWatch {
    /// A new watch on the processes called `name`, with no tick taken yet.
    pub fn new(name: String) -> (r: NameWatch)
        ensures
            r.name == name,
            r.ticks == 0,
            !r.finished,
    {
        NameWatch { name, ticks: 0, finished: false }
    }

    /// The progress label of the watch.
    pub fn label(&self) -> (r: String)
        ensures
            r@ == "Monitoring processes named: "@ + self.name@,
    {
        let mut s = String::from_str("Monitoring processes named: ");
        s.append(self.name.as_str());
        s
    }

    /// The lookup to run at each tick.
    pub fn query(&self) -> (r: CommandLine)
        ensures
            r.words() == seq!["pgrep"@, self.name@],
    {
        name_query(self.name.as_str())
    }

    /// Takes the ids that one tick found. None left ends the watch, and no
    /// id watch is started; otherwise one is started for every id found,
    /// in the order found, and the watch goes on.
    pub fn on_pids(&mut self, pids: Vec<u32>) -> (r: NameStep)
        requires
            !old(self).finished,
        ensures
            final(self).name == old(self).name,
            final(self).ticks == bump(old(self).ticks),
            final(self).finished == (pids@.len() == 0),
            pids@.len() == 0 ==> r is Finish && r->Finish_0 is Terminated,
            pids@.len() > 0 ==> r is Spawn && r->Spawn_0@ == pids@,
    {
        if self.ticks < u64::MAX {
            self.ticks = self.ticks + 1;
        }
        if pids.len() == 0 {
            self.finished = true;
            NameStep::Finish(WatchResult::Terminated)
        } else {
            NameStep::Spawn(pids)
        }
    }

    /// Takes what one tick's lookup gave. A lookup that could not run ends
    /// the watch with its reason as the error; otherwise the ids printed,
    /// one per line, go to `on_pids`.
    pub fn on_lookup(&mut self, lookup: Lookup) -> (r: NameStep)
        requires
            !old(self).finished,
        ensures
            final(self).name == old(self).name,
            final(self).ticks == bump(old(self).ticks),
            match lookup {
                Lookup::Failed(reason) => {
                    &&& final(self).finished
                    &&& r == NameStep::Finish(WatchResult::Error(reason))
                },
                Lookup::Printed(out) => {
                    let pids = pid_list(lossy_text(out@));
                    &&& final(self).finished == (pids.len() == 0)
                    &&& pids.len() == 0 ==> r is Finish && r->Finish_0 is Terminated
                    &&& pids.len() > 0 ==> r is Spawn && r->Spawn_0@ == pids
                },
            },
    {
        match lookup {
            Lookup::Failed(reason) => {
                if self.ticks < u64::MAX {
                    self.ticks = self.ticks + 1;
                }
                self.finished = true;
                NameStep::Finish(WatchResult::Error(reason))
            },
            Lookup::Printed(out) => {
                let pids = pids_in_output(out.as_slice());
                self.on_pids(pids)
            },
        }
    }
}

} // verus!
