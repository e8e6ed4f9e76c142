//! Watching one process by its id: each poll asks the process table about
//! the id; the watch ends the first time the answer is empty or the query
//! fails.
use vstd::prelude::*;
use crate::command::{pid_query, CommandLine};
use crate::text::decimal;

verus! {

/// What a watcher asks of its caller after a poll.
#[derive(PartialEq, Eq, Structural, Clone, Copy, Debug)]
pub enum PidStep {
    /// The process lives: sleep one interval, then poll again.
    Wait,
    /// The process is gone and the watch is over; the progress indicator
    /// is to be stopped if `stop_indicator` holds.
    Finish { stop_indicator: bool },
}

/// The state of a watch on one process id.
#[derive(PartialEq, Eq, Structural, Clone, Copy, Debug)]
pub struct PidWatch {
    pub pid: u32,
    /// A silent watch shows no progress indicator.
    pub silent: bool,
    /// The number of polls made so far (it stops growing at `u64::MAX`).
    pub polls: u64,
    /// Set once the watch has reported the process gone.
    pub finished: bool,
}

/// Whether a poll found the process: the query ran and printed something.
/// `None` stands for a query that could not be run.
pub fn is_alive(output: Option<&[u8]>) -> (r: bool)
    ensures
        r == match output {
            Some(b) => b@.len() > 0,
            None => false,
        },
{
    match output {
        Some(b) => b.len() > 0,
        None => false,
    }
}

impl PidWatch {
    /// The watch after a poll that found the process (`alive`) or not.
    pub open spec fn next(self, alive: bool) -> PidWatch {
        PidWatch {
            polls: if self.polls < u64::MAX {
                (self.polls + 1) as u64
            } else {
                self.polls
            },
            finished: !alive,
            ..self
        }
    }

    /// What the watch asks for after such a poll.
    pub open spec fn step_for(self, alive: bool) -> PidStep {
        if alive {
            PidStep::Wait
        } else {
            PidStep::Finish { stop_indicator: !self.silent }
        }
    }

    /// A new watch on `pid`, with no poll made yet.
    pub fn new(pid: u32, silent: bool) -> (r: PidWatch)
        ensures
            r == (PidWatch { pid, silent, polls: 0, finished: false }),
    {
        PidWatch { pid, silent, polls: 0, finished: false }
    }

    /// The progress label of a watch that is not silent.
    pub fn label(&self) -> (r: String)
        ensures
            r@ == "Monitoring PID: "@ + decimal(self.pid as nat),
    {
        let mut s = String::from_str("Monitoring PID: ");
        crate::text::push_decimal(&mut s, self.pid);
        s
    }

    /// The query to run for each poll.
    pub fn query(&self) -> (r: CommandLine)
        ensures
            r.words() == seq!["ps"@, "-o"@, "pid="@, "-p"@, decimal(self.pid as nat)],
    {
        pid_query(self.pid)
    }

    /// Takes the answer of one poll. A watch that has finished takes no
    /// more polls.
    pub fn on_poll(&mut self, alive: bool) -> (r: PidStep)
        requires
            !old(self).finished,
        ensures
            *final(self) == old(self).next(alive),
            r == old(self).step_for(alive),
    {
        if self.polls < u64::MAX {
            self.polls = self.polls + 1;
        }
        self.finished = !alive;
        if alive {
            PidStep::Wait
        } else {
            PidStep::Finish { stop_indicator: !self.silent }
        }
    }
}

/// The watch after the polls `probes`, taken in order, each `true` where
/// the poll found the process; polls after the watch finished are not taken.
pub open spec fn after_polls(w: PidWatch, probes: Seq<bool>) -> PidWatch
    decreases probes.len(),
{
    if probes.len() == 0 || w.finished {
        w
    } else {
        after_polls(w.next(probes[0]), probes.drop_first())
    }
}

/// `n` polls that all find the process.
pub open spec fn alive_polls(n: nat) -> Seq<bool> {
    Seq::new(n, |i: int| true)
}

/// A watch on an id that no live process has ends at its first poll: the
/// first step is `Finish`, with no wait before it.
pub proof fn lemma_gone_ends_at_first_poll(pid: u32, silent: bool)
    ensures
        ({
            let w = PidWatch { pid, silent, polls: 0, finished: false };
            &&& w.step_for(false) == (PidStep::Finish { stop_indicator: !silent })
            &&& w.next(false).finished
            &&& w.next(false).polls == 1
        }),
{
}

/// While every poll finds the process the watch goes on, one poll each
/// time; the first poll that misses it ends the watch.
pub proof fn lemma_alive_polls_keep_watching(w: PidWatch, n: nat)
    requires
        !w.finished,
        w.polls + n < u64::MAX,
    ensures
        after_polls(w, alive_polls(n)) == (PidWatch { polls: (w.polls + n) as u64, ..w }),
        after_polls(w, alive_polls(n).push(false)) == (PidWatch {
            polls: (w.polls + n + 1) as u64,
            finished: true,
            ..w
        }),
    decreases n,
{
    if n > 0 {
        let w1 = w.next(true);
        lemma_alive_polls_keep_watching(w1, (n - 1) as nat);
        assert(alive_polls(n).drop_first() =~= alive_polls((n - 1) as nat));
        assert(alive_polls(n).push(false).drop_first() =~= alive_polls((n - 1) as nat).push(false));
        assert(alive_polls(n).push(false)[0]);
    } else {
        let probes = alive_polls(0).push(false);
        assert(probes.drop_first() =~= Seq::<bool>::empty());
        assert(!probes[0]);
        assert(after_polls(w, probes) == after_polls(w.next(false), probes.drop_first()));
    }
}

/// A process that lives through `n` polls and is gone at the next is
/// polled `n + 1` times: the watch does not end early.
pub proof fn lemma_no_early_end(pid: u32, silent: bool, n: nat)
    requires
        n + 1 < u64::MAX,
    ensures
        ({
            let w = PidWatch { pid, silent, polls: 0, finished: false };
            &&& forall|k: nat| k <= n ==> !(#[trigger] after_polls(w, alive_polls(k))).finished
            &&& after_polls(w, alive_polls(n).push(false)).finished
            &&& after_polls(w, alive_polls(n).push(false)).polls == n + 1
        }),
{
    let w = PidWatch { pid, silent, polls: 0, finished: false };
    assert forall|k: nat| k <= n implies !(#[trigger] after_polls(w, alive_polls(k))).finished by {
        lemma_alive_polls_keep_watching(w, k);
    }
    lemma_alive_polls_keep_watching(w, n);
}

} // verus!
