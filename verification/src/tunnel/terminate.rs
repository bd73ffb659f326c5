//! How a process is terminated: asked first, watched for a bounded time,
//! then killed, and reaped in every case.
use vstd::prelude::*;

verus! {

/// How often the process is looked at after it was asked to end.
pub const GRACE_POLLS: u32 = 50;

/// The pause between two looks at the process, in milliseconds.
pub const GRACE_POLL_MS: u64 = 100;

/// Where a termination stands.
#[derive(Clone, Copy, PartialEq, Eq, Debug, Structural)]
pub enum KillStage {
    /// Sending the signal that asks the process to end.
    Signal,
    /// Looking whether the process has ended.
    Poll,
    /// Pausing before the next look.
    Sleep,
    /// Killing the process.
    Kill,
    /// Waiting for the process, so that nothing of it is left behind.
    Reap,
    /// The termination is over.
    Done,
}

/// What a termination asks the outside to do next.
#[derive(Clone, Copy, PartialEq, Eq, Debug, Structural)]
pub enum KillAction {
    /// Send the process the signal to terminate; answer `Performed`.
    Signal(u32),
    /// Look whether the process has ended; answer `Polled`.
    Poll(u32),
    /// Pause for so many milliseconds; answer `Performed`.
    Sleep(u64),
    /// Kill the process, whether it lives or not; answer `Performed`.
    Kill(u32),
    /// Wait for the process; answer `Performed`.
    Reap(u32),
    /// Nothing: the termination is over.
    Done,
}

/// An answer to the action that a termination named.
#[derive(Clone, Copy, PartialEq, Eq, Debug, Structural)]
pub enum KillEvent {
    Performed,
    /// Whether the look showed that the process has ended.
    Polled(bool),
}

/// The termination of one process.
#[derive(Clone, Copy, PartialEq, Eq, Debug, Structural)]
pub struct Termination {
    /// The process to terminate.
    pub pid: u32,
    pub stage: KillStage,
    /// How many pauses have been made.
    pub pauses: u32,
}

/// The termination of the process `pid` at its outset.
pub open spec fn kill_start(pid: u32) -> Termination {
    Termination { pid, stage: KillStage::Signal, pauses: 0 }
}

/// The state that follows `t` when the answer `e` arrives. An answer that
/// does not fit the action under way changes nothing.
pub open spec fn kill_next(t: Termination, e: KillEvent) -> Termination {
    match (t.stage, e) {
        (KillStage::Signal, KillEvent::Performed) => Termination { stage: KillStage::Poll, ..t },
        (KillStage::Poll, KillEvent::Polled(ended)) => if ended {
            Termination { stage: KillStage::Kill, ..t }
        } else {
            Termination { stage: KillStage::Sleep, ..t }
        },
        (KillStage::Sleep, KillEvent::Performed) => if t.pauses + 1 < GRACE_POLLS {
            Termination { stage: KillStage::Poll, pauses: (t.pauses + 1) as u32, ..t }
        } else {
            Termination { stage: KillStage::Kill, pauses: GRACE_POLLS, ..t }
        },
        (KillStage::Kill, KillEvent::Performed) => Termination { stage: KillStage::Reap, ..t },
        (KillStage::Reap, KillEvent::Performed) => Termination { stage: KillStage::Done, ..t },
        _ => t,
    }
}

/// The action that the termination `t` waits for.
pub open spec fn kill_action(t: Termination) -> KillAction {
    match t.stage {
        KillStage::Signal => KillAction::Signal(t.pid),
        KillStage::Poll => KillAction::Poll(t.pid),
        KillStage::Sleep => KillAction::Sleep(GRACE_POLL_MS),
        KillStage::Kill => KillAction::Kill(t.pid),
        KillStage::Reap => KillAction::Reap(t.pid),
        KillStage::Done => KillAction::Done,
    }
}

/// Begins the termination of the process `pid`. The termination is a
/// machine: [`Termination::pending`] names the action that it waits for,
/// [`Termination::step`] takes the answer and names the next one, until
/// the action is `Done`.
pub fn kill_child(pid: u32) -> (t: Termination)
    ensures
        t == kill_start(pid),
{
    Termination { pid, stage: KillStage::Signal, pauses: 0 }
}

impl Termination {
    /// The action that the termination waits for.
    pub fn pending(&self) -> (r: KillAction)
        ensures
            r == kill_action(*self),
    {
        match self.stage {
            KillStage::Signal => KillAction::Signal(self.pid),
            KillStage::Poll => KillAction::Poll(self.pid),
            KillStage::Sleep => KillAction::Sleep(GRACE_POLL_MS),
            KillStage::Kill => KillAction::Kill(self.pid),
            KillStage::Reap => KillAction::Reap(self.pid),
            KillStage::Done => KillAction::Done,
        }
    }

    /// Takes the answer `event` to the action under way and names the
    /// action that comes next.
    pub fn step(&mut self, event: KillEvent) -> (action: KillAction)
        ensures
            *final(self) == kill_next(*old(self), event),
            action == kill_action(*final(self)),
    {
        match (self.stage, event) {
            (KillStage::Signal, KillEvent::Performed) => {
                self.stage = KillStage::Poll;
            },
            (KillStage::Poll, KillEvent::Polled(ended)) => {
                if ended {
                    self.stage = KillStage::Kill;
                } else {
                    self.stage = KillStage::Sleep;
                }
            },
            (KillStage::Sleep, KillEvent::Performed) => {
                if self.pauses < GRACE_POLLS - 1 {
                    self.stage = KillStage::Poll;
                    self.pauses = self.pauses + 1;
                } else {
                    self.stage = KillStage::Kill;
                    self.pauses = GRACE_POLLS;
                }
            },
            (KillStage::Kill, KillEvent::Performed) => {
                self.stage = KillStage::Reap;
            },
            (KillStage::Reap, KillEvent::Performed) => {
                self.stage = KillStage::Done;
            },
            _ => {},
        }
        self.pending()
    }
}

/// What holds of a termination at every moment: no more pauses have been
/// made than are allowed, and while the process is still watched, fewer.
pub open spec fn kill_bounded(t: Termination) -> bool {
    &&& t.pauses <= GRACE_POLLS
    &&& (t.stage == KillStage::Signal ==> t.pauses == 0)
    &&& (t.stage == KillStage::Poll || t.stage == KillStage::Sleep ==> t.pauses < GRACE_POLLS)
}

/// The milliseconds that a termination has paused in all.
pub open spec fn kill_paused_ms(t: Termination) -> int {
    t.pauses * GRACE_POLL_MS
}

/// The state of a termination after a series of answers.
pub open spec fn kill_run(t: Termination, events: Seq<KillEvent>) -> Termination
    decreases events.len(),
{
    if events.len() == 0 {
        t
    } else {
        kill_next(kill_run(t, events.drop_last()), events.last())
    }
}

/// Whatever the answers, a termination never pauses longer than five
/// seconds in all, it never goes back to an earlier process, and once the
/// allowed pauses are used up the process is killed without another look.
pub proof fn lemma_kill_within_grace(pid: u32, events: Seq<KillEvent>)
    ensures
        kill_bounded(kill_run(kill_start(pid), events)),
        kill_paused_ms(kill_run(kill_start(pid), events)) <= 5000,
        kill_run(kill_start(pid), events).pid == pid,
    decreases events.len(),
{
    if events.len() > 0 {
        lemma_kill_within_grace(pid, events.drop_last());
    }
}

/// The answers of a process that ignores the signal, for `n` looks: each
/// look shows it alive and is followed by a pause.
pub open spec fn stubborn(n: nat) -> Seq<KillEvent>
    decreases n,
{
    if n == 0 {
        seq![KillEvent::Performed]
    } else {
        stubborn((n - 1) as nat).push(KillEvent::Polled(false)).push(KillEvent::Performed)
    }
}

/// A process that ignores the signal is watched for the allowed pauses
/// and no longer: after the last of them it is killed, then reaped.
pub proof fn lemma_stubborn_process_is_killed(pid: u32)
    ensures
        kill_action(kill_run(kill_start(pid), stubborn(GRACE_POLLS as nat))) == KillAction::Kill(
            pid,
        ),
        kill_paused_ms(kill_run(kill_start(pid), stubborn(GRACE_POLLS as nat))) == 5000,
        kill_action(
            kill_next(
                kill_run(kill_start(pid), stubborn(GRACE_POLLS as nat)),
                KillEvent::Performed,
            ),
        ) == KillAction::Reap(pid),
{
    lemma_stubborn_progress(pid, GRACE_POLLS as nat);
}

proof fn lemma_stubborn_progress(pid: u32, n: nat)
    requires
        n <= GRACE_POLLS,
    ensures
        kill_run(kill_start(pid), stubborn(n)) == (if n < GRACE_POLLS {
            Termination { pid, stage: KillStage::Poll, pauses: n as u32 }
        } else {
            Termination { pid, stage: KillStage::Kill, pauses: GRACE_POLLS }
        }),
    decreases n,
{
    if n == 0 {
        assert(stubborn(0).drop_last() == Seq::<KillEvent>::empty());
        assert(kill_run(kill_start(pid), stubborn(0).drop_last()) == kill_start(pid));
    } else {
        lemma_stubborn_progress(pid, (n - 1) as nat);
        let before = stubborn((n - 1) as nat);
        let mid = before.push(KillEvent::Polled(false));
        assert(stubborn(n).drop_last() == mid);
        assert(mid.drop_last() == before);
        assert(kill_run(kill_start(pid), mid) == kill_next(
            kill_run(kill_start(pid), before),
            KillEvent::Polled(false),
        ));
    }
}

} // verus!
