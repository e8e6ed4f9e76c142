//! One run from start to end: announce the watch, run it, report its end.
//! A command is started before it is announced, so that a command that
//! cannot start is never announced as started.
use vstd::prelude::*;
use crate::command::WatchResult;
use crate::text::{decimal, push_decimal};

verus! {

/// What to watch.
pub enum WatchTarget {
    /// The process with this id.
    ByPid(u32),
    /// Every process with this name.
    ByName(String),
    /// The command line run through the shell.
    ByCommand(String),
}

/// Where a run stands.
#[derive(PartialEq, Eq, Structural, Clone, Copy, Debug)]
pub enum Stage {
    Ready,
    Starting,
    Watching,
    Done,
}

/// What the caller reports to a run.
pub enum Event {
    /// The run may begin.
    Begin,
    /// The command was started, as the process with this id.
    Started(u32),
    /// The command could not be started, for this reason.
    StartFailed(String),
    /// The watch ended with this result.
    WatchEnded(WatchResult),
}

/// What a run asks of its caller, in order.
pub enum Action {
    /// Send this notification, and wait until it is sent or has failed.
    Notify(String),
    /// Watch the process with this id, with a progress indicator.
    WatchPid(u32),
    /// Watch the processes with this name.
    WatchName(String),
    /// Start this command line through the shell, with its output captured.
    StartCommand(String),
    /// Wait for the started command to exit.
    AwaitCommand,
    /// The run is over.
    Stop,
}

/// An action as its contents.
pub enum ActionView {
    Notify(Seq<char>),
    WatchPid(u32),
    WatchName(Seq<char>),
    StartCommand(Seq<char>),
    AwaitCommand,
    Stop,
}

impl View for Action {
    type V = ActionView;

    open spec fn view(&self) -> ActionView {
        match self {
            Action::Notify(m) => ActionView::Notify(m@),
            Action::WatchPid(p) => ActionView::WatchPid(*p),
            Action::WatchName(n) => ActionView::WatchName(n@),
            Action::StartCommand(c) => ActionView::StartCommand(c@),
            Action::AwaitCommand => ActionView::AwaitCommand,
            Action::Stop => ActionView::Stop,
        }
    }
}

/// The notification that announces a watch on `t`.
pub open spec fn start_text(t: WatchTarget) -> Seq<char> {
    match t {
        WatchTarget::ByPid(p) => "Starting to monitor PID: "@ + decimal(p as nat),
        WatchTarget::ByName(n) => "Monitoring processes named: "@ + n@,
        WatchTarget::ByCommand(c) => "Starting command: '"@ + c@ + "'"@,
    }
}

/// The notification that reports the end of a watch on `t`.
pub open spec fn finish_text(t: WatchTarget) -> Seq<char> {
    match t {
        WatchTarget::ByPid(p) => "Process "@ + decimal(p as nat) + " has finished."@,
        WatchTarget::ByName(n) => "Processes '"@ + n@ + "' have finished."@,
        WatchTarget::ByCommand(c) => "Command '"@ + c@ + "' has finished."@,
    }
}

/// The watch that `t` calls for once announced.
pub open spec fn watch_action(t: WatchTarget) -> ActionView {
    match t {
        WatchTarget::ByPid(p) => ActionView::WatchPid(p),
        WatchTarget::ByName(n) => ActionView::WatchName(n@),
        WatchTarget::ByCommand(_) => ActionView::AwaitCommand,
    }
}

/// A run: its target and where it stands.
pub struct Session {
    pub target: WatchTarget,
    pub stage: Stage,
}

/// Where a run on `t` at `stage` goes on event `e`, and what it asks for.
/// An event that does not fit the stage changes nothing and asks nothing.
pub open spec fn transition(t: WatchTarget, stage: Stage, e: Event) -> (Stage, Seq<ActionView>) {
    match (stage, e) {
        (Stage::Ready, Event::Begin) => match t {
            WatchTarget::ByCommand(c) => (Stage::Starting, seq![ActionView::StartCommand(c@)]),
            _ => (Stage::Watching, seq![ActionView::Notify(start_text(t)), watch_action(t)]),
        },
        (Stage::Starting, Event::Started(_)) => (
            Stage::Watching,
            seq![ActionView::Notify(start_text(t)), ActionView::AwaitCommand],
        ),
        (Stage::Starting, Event::StartFailed(_)) => (Stage::Done, seq![ActionView::Stop]),
        (Stage::Watching, Event::WatchEnded(_)) => (
            Stage::Done,
            seq![ActionView::Notify(finish_text(t)), ActionView::Stop],
        ),
        _ => (stage, seq![]),
    }
}

/// Where a run on `t` at `stage` ends up after `events`, and all it asks
/// for on the way, in order.
pub open spec fn run(t: WatchTarget, stage: Stage, events: Seq<Event>) -> (Stage, Seq<ActionView>)
    decreases events.len(),
{
    if events.len() == 0 {
        (stage, seq![])
    } else {
        let (s1, a1) = transition(t, stage, events[0]);
        let (s2, a2) = run(t, s1, events.drop_first());
        (s2, a1 + a2)
    }
}

/// The texts of the notifications among `actions`, in order.
pub open spec fn notices(actions: Seq<ActionView>) -> Seq<Seq<char>>
    decreases actions.len(),
{
    if actions.len() == 0 {
        seq![]
    } else {
        let rest = notices(actions.drop_first());
        match actions[0] {
            ActionView::Notify(m) => seq![m] + rest,
            _ => rest,
        }
    }
}

pub open spec fn views(actions: Seq<Action>) -> Seq<ActionView> {
    actions.map_values(|a: Action| a@)
}

impl WatchTarget {
    /// The notification that announces the watch.
    pub fn start_message(&self) -> (r: String)
        ensures
            r@ == start_text(*self),
    {
        match self {
            WatchTarget::ByPid(p) => {
                let mut s = String::from_str("Starting to monitor PID: ");
                push_decimal(&mut s, *p);
                s
            },
            WatchTarget::ByName(n) => {
                let mut s = String::from_str("Monitoring processes named: ");
                s.append(n.as_str());
                s
            },
            WatchTarget::ByCommand(c) => {
                let mut s = String::from_str("Starting command: '");
                s.append(c.as_str());
                s.append("'");
                s
            },
        }
    }

    /// The notification that reports the end of the watch.
    pub fn finish_message(&self) -> (r: String)
        ensures
            r@ == finish_text(*self),
    {
        match self {
            WatchTarget::ByPid(p) => {
                let mut s = String::from_str("Process ");
                push_decimal(&mut s, *p);
                s.append(" has finished.");
                s
            },
            WatchTarget::ByName(n) => {
                let mut s = String::from_str("Processes '");
                s.append(n.as_str());
                s.append("' have finished.");
                s
            },
            WatchTarget::ByCommand(c) => {
                let mut s = String::from_str("Command '");
                s.append(c.as_str());
                s.append("' has finished.");
                s
            },
        }
    }

    fn watch(&self) -> (r: Action)
        ensures
            r@ == watch_action(*self),
    {
        match self {
            WatchTarget::ByPid(p) => Action::WatchPid(*p),
            WatchTarget::ByName(n) => Action::WatchName(n.clone()),
            WatchTarget::ByCommand(_) => Action::AwaitCommand,
        }
    }
}

impl Session {
    /// A run on `target` that has not begun.
    pub fn new(target: WatchTarget) -> (r: Session)
        ensures
            r.target == target,
            r.stage == Stage::Ready,
    {
        Session { target, stage: Stage::Ready }
    }

    /// Takes one event and returns what the run asks for next, in order.
    pub fn on_event(&mut self, event: Event) -> (r: Vec<Action>)
        ensures
            final(self).target == old(self).target,
            (final(self).stage, views(r@)) == transition(old(self).target, old(self).stage, event),
    {
        let mut out: Vec<Action> = Vec::new();
        match (self.stage, event) {
            (Stage::Ready, Event::Begin) => match &self.target {
                WatchTarget::ByCommand(c) => {
                    out.push(Action::StartCommand(c.clone()));
                    self.stage = Stage::Starting;
                },
                _ => {
                    out.push(Action::Notify(self.target.start_message()));
                    out.push(self.target.watch());
                    self.stage = Stage::Watching;
                },
            },
            (Stage::Starting, Event::Started(_)) => {
                out.push(Action::Notify(self.target.start_message()));
                out.push(Action::AwaitCommand);
                self.stage = Stage::Watching;
            },
            (Stage::Starting, Event::StartFailed(_)) => {
                out.push(Action::Stop);
                self.stage = Stage::Done;
            },
            (Stage::Watching, Event::WatchEnded(_)) => {
                out.push(Action::Notify(self.target.finish_message()));
                out.push(Action::Stop);
                self.stage = Stage::Done;
            },
            _ => {},
        }
        proof {
            let (s, a) = transition(old(self).target, old(self).stage, event);
            assert(views(out@) =~= a);
        }
        out
    }
}

proof fn lemma_run_unfold(t: WatchTarget, stage: Stage, events: Seq<Event>)
    requires
        events.len() > 0,
    ensures
        run(t, stage, events) == ({
            let (s1, a1) = transition(t, stage, events[0]);
            let (s2, a2) = run(t, s1, events.drop_first());
            (s2, a1 + a2)
        }),
{
}

proof fn lemma_notices_append(a: Seq<ActionView>, b: Seq<ActionView>)
    ensures
        notices(a + b) == notices(a) + notices(b),
    decreases a.len(),
{
    if a.len() == 0 {
        assert(a + b =~= b);
        assert(notices(a) + notices(b) =~= notices(b));
    } else {
        assert((a + b).drop_first() =~= a.drop_first() + b);
        lemma_notices_append(a.drop_first(), b);
        assert((a + b)[0] == a[0]);
        match a[0] {
            ActionView::Notify(m) => {
                assert(seq![m] + (notices(a.drop_first()) + notices(b)) =~= (seq![m] + notices(
                    a.drop_first(),
                )) + notices(b));
            },
            _ => {},
        }
    }
}

proof fn lemma_notices_of_four(x: ActionView, y: ActionView, z: ActionView, w: ActionView)
    ensures
        notices(seq![x, y, z, w]) == notices(seq![x]) + notices(seq![y]) + notices(seq![z])
            + notices(seq![w]),
{
    assert(seq![x, y, z, w] =~= seq![x] + seq![y] + seq![z] + seq![w]);
    lemma_notices_append(seq![x] + seq![y] + seq![z], seq![w]);
    lemma_notices_append(seq![x] + seq![y], seq![z]);
    lemma_notices_append(seq![x], seq![y]);
    reveal_with_fuel(notices, 2);
}

/// A watch by id or by name that begins and then ends asks for exactly
/// this: the announcement, the watch, the report of its end, the stop. So
/// two notifications go out, the announcement first.
pub proof fn lemma_watch_is_announced_then_reported(t: WatchTarget, result: WatchResult)
    requires
        !(t is ByCommand),
    ensures
        ({
            let (stage, actions) = run(
                t,
                Stage::Ready,
                seq![Event::Begin, Event::WatchEnded(result)],
            );
            &&& stage == Stage::Done
            &&& actions == seq![
                ActionView::Notify(start_text(t)),
                watch_action(t),
                ActionView::Notify(finish_text(t)),
                ActionView::Stop,
            ]
            &&& notices(actions) == seq![start_text(t), finish_text(t)]
        }),
{
    let events = seq![Event::Begin, Event::WatchEnded(result)];
    lemma_run_unfold(t, Stage::Ready, events);
    lemma_run_unfold(t, Stage::Watching, events.drop_first());
    assert(events.drop_first().drop_first() =~= Seq::<Event>::empty());
    let (stage, actions) = run(t, Stage::Ready, events);
    assert(actions =~= seq![
        ActionView::Notify(start_text(t)),
        watch_action(t),
        ActionView::Notify(finish_text(t)),
        ActionView::Stop,
    ]);
    lemma_notices_of_four(
        ActionView::Notify(start_text(t)),
        watch_action(t),
        ActionView::Notify(finish_text(t)),
        ActionView::Stop,
    );
    reveal_with_fuel(notices, 2);
    assert(notices(actions) =~= seq![start_text(t), finish_text(t)]);
}

/// A command that starts and then exits, whatever its status, is started,
/// announced, waited for, and reported: two notifications go out around
/// the wait, the announcement first.
pub proof fn lemma_command_is_announced_then_reported(c: String, pid: u32, result: WatchResult)
    ensures
        ({
            let t = WatchTarget::ByCommand(c);
            let (stage, actions) = run(
                t,
                Stage::Ready,
                seq![Event::Begin, Event::Started(pid), Event::WatchEnded(result)],
            );
            &&& stage == Stage::Done
            &&& actions == seq![
                ActionView::StartCommand(c@),
                ActionView::Notify(start_text(t)),
                ActionView::AwaitCommand,
                ActionView::Notify(finish_text(t)),
                ActionView::Stop,
            ]
            &&& notices(actions) == seq![start_text(t), finish_text(t)]
        }),
{
    let t = WatchTarget::ByCommand(c);
    let events = seq![Event::Begin, Event::Started(pid), Event::WatchEnded(result)];
    lemma_run_unfold(t, Stage::Ready, events);
    lemma_run_unfold(t, Stage::Starting, events.drop_first());
    lemma_run_unfold(t, Stage::Watching, events.drop_first().drop_first());
    assert(events.drop_first().drop_first().drop_first() =~= Seq::<Event>::empty());
    let (stage, actions) = run(t, Stage::Ready, events);
    assert(actions =~= seq![ActionView::StartCommand(c@)] + seq![
        ActionView::Notify(start_text(t)),
        ActionView::AwaitCommand,
        ActionView::Notify(finish_text(t)),
        ActionView::Stop,
    ]);
    lemma_notices_append(seq![ActionView::StartCommand(c@)], seq![
        ActionView::Notify(start_text(t)),
        ActionView::AwaitCommand,
        ActionView::Notify(finish_text(t)),
        ActionView::Stop,
    ]);
    lemma_notices_of_four(
        ActionView::Notify(start_text(t)),
        ActionView::AwaitCommand,
        ActionView::Notify(finish_text(t)),
        ActionView::Stop,
    );
    reveal_with_fuel(notices, 2);
    assert(notices(actions) =~= seq![start_text(t), finish_text(t)]);
}

/// A command that cannot be started is never announced: the run stops
/// with no notification.
pub proof fn lemma_failed_start_is_not_announced(c: String, reason: String)
    ensures
        ({
            let t = WatchTarget::ByCommand(c);
            let (stage, actions) = run(
                t,
                Stage::Ready,
                seq![Event::Begin, Event::StartFailed(reason)],
            );
            &&& stage == Stage::Done
            &&& actions == seq![ActionView::StartCommand(c@), ActionView::Stop]
            &&& notices(actions) == Seq::<Seq<char>>::empty()
        }),
{
    let t = WatchTarget::ByCommand(c);
    let events = seq![Event::Begin, Event::StartFailed(reason)];
    lemma_run_unfold(t, Stage::Ready, events);
    lemma_run_unfold(t, Stage::Starting, events.drop_first());
    assert(events.drop_first().drop_first() =~= Seq::<Event>::empty());
    let (stage, actions) = run(t, Stage::Ready, events);
    assert(actions =~= seq![ActionView::StartCommand(c@), ActionView::Stop]);
    reveal_with_fuel(notices, 3);
    assert(seq![ActionView::StartCommand(c@), ActionView::Stop].drop_first() =~= seq![
        ActionView::Stop,
    ]);
    assert(seq![ActionView::Stop].drop_first() =~= Seq::<ActionView>::empty());
}

} // verus!
