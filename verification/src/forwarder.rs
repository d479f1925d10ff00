//! The backend forwarder: one exchange per attempt, each over a connection of
//! its own, with the retry schedule around them.

use crate::dispatch::DispatchError;
use crate::exchange::{initial, Action, Event, Exchange, ExchangeView, Phase};
use crate::retry::{step_after, RetryState, RetryStep, StepView, MAX_ATTEMPTS};
use vstd::prelude::*;

verus! {

/// Where a forwarding stands.
pub enum StageView {
    /// An attempt is under way.
    Attempting,
    /// An attempt has failed; the next one follows after `delay_ms`
    /// milliseconds.
    Waiting { delay_ms: nat },
    /// An exchange succeeded.
    Delivered,
    /// The last attempt allowed has failed.
    Unreachable,
}

/// The state of a forwarding: the number of the attempt reached, counted from
/// 1, the exchange of that attempt, and the stage.
pub struct ForwarderView {
    pub attempt: nat,
    pub exchange: ExchangeView,
    pub stage: StageView,
}

/// What the driver of a forwarding reports back.
pub enum Signal {
    /// Something happened on the connection of the attempt under way.
    Link(Event),
    /// The delay asked for has passed.
    Slept,
}

/// What the driver of a forwarding has to do next.
#[derive(Copy, Clone, PartialEq, Eq, Structural, Debug)]
pub enum Task {
    /// Open a new connection to the backend.
    Connect,
    /// Read whatever bytes the backend sends next.
    Read,
    /// Write the command, all of it and nothing else.
    Write,
    /// Wait this many milliseconds.
    Sleep { delay_ms: u64 },
    /// Nothing more: the command was delivered.
    Delivered,
    /// Nothing more: the backend is unreachable.
    Unreachable,
}

/// The state in which the forwarding of `command` begins.
pub open spec fn begin(command: Seq<u8>) -> ForwarderView {
    ForwarderView { attempt: 1, exchange: initial(command), stage: StageView::Attempting }
}

/// The stage that follows an attempt's exchange, once it stands in `phase`:
/// the attempt is still under way while the exchange is, and the retry
/// schedule decides once it has ended.
pub open spec fn stage_after(attempt: nat, phase: Phase) -> StageView {
    if phase != Phase::Complete && phase != Phase::Failed {
        StageView::Attempting
    } else {
        match step_after(attempt, phase == Phase::Complete) {
            StepView::Delivered => StageView::Delivered,
            StepView::Unreachable => StageView::Unreachable,
            StepView::Wait { delay_ms, next_attempt } => StageView::Waiting { delay_ms },
        }
    }
}

/// The state that follows `state` on `signal`. While an attempt is under way
/// what happens on its connection moves its exchange on. After the delay the
/// next attempt begins, with a new exchange for the same command. Anything
/// else changes nothing: a forwarding that has ended stays as it is.
pub open spec fn next(state: ForwarderView, signal: Signal) -> ForwarderView {
    match (state.stage, signal) {
        (StageView::Attempting, Signal::Link(event)) => {
            let exchange = crate::exchange::next(state.exchange, event);
            ForwarderView {
                attempt: state.attempt,
                exchange,
                stage: stage_after(state.attempt, exchange.phase),
            }
        },
        (StageView::Waiting { delay_ms }, Signal::Slept) => ForwarderView {
            attempt: state.attempt + 1,
            exchange: initial(state.exchange.command),
            stage: StageView::Attempting,
        },
        _ => state,
    }
}

/// What the driver has to do in `state`.
pub open spec fn task_in(state: ForwarderView) -> Task {
    match state.stage {
        StageView::Attempting => match state.exchange.phase {
            Phase::Connecting => Task::Connect,
            Phase::Sending => Task::Write,
            _ => Task::Read,
        },
        StageView::Waiting { delay_ms } => Task::Sleep { delay_ms: delay_ms as u64 },
        StageView::Delivered => Task::Delivered,
        StageView::Unreachable => Task::Unreachable,
    }
}

/// The state reached from `state` after `signals`, in order.
pub open spec fn run(state: ForwarderView, signals: Seq<Signal>) -> ForwarderView
    decreases signals.len(),
{
    if signals.len() == 0 {
        state
    } else {
        next(run(state, signals.drop_last()), signals.last())
    }
}

/// The number of connections asked for in the course of `signals`: one for the
/// state begun in, and one for each delay that has passed while it was waited
/// for.
pub open spec fn connections(state: ForwarderView, signals: Seq<Signal>) -> nat
    decreases signals.len(),
{
    if signals.len() == 0 {
        1
    } else {
        connections(state, signals.drop_last()) + if run(state, signals.drop_last()).stage is Waiting
            && signals.last() is Slept {
            1nat
        } else {
            0nat
        }
    }
}

/// A state that a forwarding can reach: the attempt lies within the schedule,
/// an attempt under way has an exchange under way, a wait follows a failed
/// exchange that was not the last allowed and lasts as the schedule says, and
/// the forwarding has ended as its last exchange did.
pub open spec fn reachable(state: ForwarderView) -> bool {
    &&& 1 <= state.attempt <= MAX_ATTEMPTS
    &&& match state.stage {
        StageView::Attempting => state.exchange.phase != Phase::Complete && state.exchange.phase
            != Phase::Failed,
        StageView::Waiting { delay_ms } => state.exchange.phase == Phase::Failed && state.attempt
            < MAX_ATTEMPTS && delay_ms == crate::retry::delay_after(state.attempt),
        StageView::Delivered => state.exchange.phase == Phase::Complete,
        StageView::Unreachable => state.exchange.phase == Phase::Failed && state.attempt
            == MAX_ATTEMPTS,
    }
}

/// Whatever is reported, in whatever order, the forwarding stays within the
/// schedule: it keeps its command as it was handed in, never goes beyond the
/// last attempt allowed, asks for exactly one connection per attempt, and
/// gives the backend up only after the last attempt allowed has failed.
pub proof fn lemma_run_stays_in_schedule(command: Seq<u8>, signals: Seq<Signal>)
    ensures
        reachable(run(begin(command), signals)),
        run(begin(command), signals).exchange.command == command,
        connections(begin(command), signals) == run(begin(command), signals).attempt,
        connections(begin(command), signals) <= MAX_ATTEMPTS,
    decreases signals.len(),
{
    if signals.len() > 0 {
        lemma_run_stays_in_schedule(command, signals.drop_last());
        crate::retry::lemma_delays();
    }
}

/// Once a forwarding has ended, nothing that is reported changes it.
pub proof fn lemma_ended_stays(state: ForwarderView, signal: Signal)
    requires
        state.stage is Delivered || state.stage is Unreachable,
    ensures
        next(state, signal) == state,
{
}

/// What the forwarder holds between two signals.
#[derive(Copy, Clone, Debug)]
enum Stage {
    Attempting,
    Waiting { delay_ms: u64 },
    Delivered,
    Unreachable,
}

/// The forwarding of one command to the backend. While a delay is waited for,
/// `retry` already stands for the attempt to come.
pub struct Forwarder {
    retry: RetryState,
    exchange: Exchange,
    stage: Stage,
}

impl View for Forwarder {
    type V = ForwarderView;

    closed spec fn view(&self) -> ForwarderView {
        ForwarderView {
            attempt: match self.stage {
                Stage::Waiting { .. } => (self.retry.attempt_number() - 1) as nat,
                _ => self.retry.attempt_number(),
            },
            exchange: self.exchange@,
            stage: match self.stage {
                Stage::Attempting => StageView::Attempting,
                Stage::Waiting { delay_ms } => StageView::Waiting { delay_ms: delay_ms as nat },
                Stage::Delivered => StageView::Delivered,
                Stage::Unreachable => StageView::Unreachable,
            },
        }
    }
}

impl Forwarder {
    /// A forwarding of `command`, before anything was done.
    pub fn new(command: Vec<u8>) -> (forwarder: Forwarder)
        ensures
            forwarder@ == begin(command@),
    {
        Forwarder {
            retry: RetryState::start(),
            exchange: Exchange::new(command),
            stage: Stage::Attempting,
        }
    }

    /// The bytes to write when the task is `Write`: the command as it was
    /// handed in.
    pub fn command(&self) -> (bytes: &Vec<u8>)
        ensures
            bytes@ == self@.exchange.command,
    {
        self.exchange.command()
    }

    /// The number of the attempt reached, counted from 1.
    pub fn attempt(&self) -> (number: u32)
        ensures
            number == self@.attempt,
    {
        let number: u32 = self.retry.attempt();
        match self.stage {
            Stage::Waiting { .. } => number - 1,
            _ => number,
        }
    }

    /// What the driver has to do next.
    pub fn task(&self) -> (task: Task)
        ensures
            task == task_in(self@),
    {
        match self.stage {
            Stage::Attempting => match self.exchange.action() {
                Action::Connect => Task::Connect,
                Action::Write => Task::Write,
                _ => Task::Read,
            },
            Stage::Waiting { delay_ms } => Task::Sleep { delay_ms },
            Stage::Delivered => Task::Delivered,
            Stage::Unreachable => Task::Unreachable,
        }
    }

    /// The result of the forwarding, once it has ended: `None` while it is
    /// under way.
    pub fn conclusion(&self) -> (result: Option<Result<(), DispatchError>>)
        ensures
            result == match self@.stage {
                StageView::Delivered => Some(Ok::<(), DispatchError>(())),
                StageView::Unreachable => Some(
                    Err::<(), DispatchError>(DispatchError::BackendUnreachable),
                ),
                _ => None,
            },
    {
        match self.stage {
            Stage::Delivered => Some(Ok(())),
            Stage::Unreachable => Some(Err(DispatchError::BackendUnreachable)),
            _ => None,
        }
    }

    /// Lets the retry schedule decide once the exchange of the attempt under
    /// way has ended.
    fn settle(&mut self)
        requires
            old(self).stage is Attempting,
        ensures
            final(self)@.attempt == old(self)@.attempt,
            final(self)@.exchange == old(self)@.exchange,
            final(self)@.stage == stage_after(old(self)@.attempt, old(self)@.exchange.phase),
    {
        match self.exchange.outcome() {
            None => {},
            Some(succeeded) => {
                match self.retry.on_outcome(succeeded) {
                    RetryStep::Delivered => {
                        self.stage = Stage::Delivered;
                    },
                    RetryStep::Unreachable => {
                        self.stage = Stage::Unreachable;
                    },
                    RetryStep::Wait { delay_ms, next } => {
                        self.retry = next;
                        self.stage = Stage::Waiting { delay_ms };
                    },
                }
            },
        }
    }

    /// The connection is open.
    pub fn on_connected(&mut self) -> (task: Task)
        ensures
            final(self)@ == next(old(self)@, Signal::Link(Event::Connected)),
            task == task_in(final(self)@),
    {
        if let Stage::Attempting = self.stage {
            self.exchange.on_connected();
            self.settle();
        }
        self.task()
    }

    /// The bytes of `chunk` arrived.
    pub fn on_received(&mut self, chunk: &[u8]) -> (task: Task)
        ensures
            final(self)@ == next(old(self)@, Signal::Link(Event::Received(chunk@))),
            task == task_in(final(self)@),
    {
        if let Stage::Attempting = self.stage {
            self.exchange.on_received(chunk);
            self.settle();
        }
        self.task()
    }

    /// The command was written.
    pub fn on_written(&mut self) -> (task: Task)
        ensures
            final(self)@ == next(old(self)@, Signal::Link(Event::Written)),
            task == task_in(final(self)@),
    {
        if let Stage::Attempting = self.stage {
            self.exchange.on_written();
            self.settle();
        }
        self.task()
    }

    /// The backend closed the connection.
    pub fn on_closed(&mut self) -> (task: Task)
        ensures
            final(self)@ == next(old(self)@, Signal::Link(Event::Closed)),
            task == task_in(final(self)@),
    {
        if let Stage::Attempting = self.stage {
            self.exchange.on_closed();
            self.settle();
        }
        self.task()
    }

    /// Connecting, reading or writing failed.
    pub fn on_broken(&mut self) -> (task: Task)
        ensures
            final(self)@ == next(old(self)@, Signal::Link(Event::Broken)),
            task == task_in(final(self)@),
    {
        if let Stage::Attempting = self.stage {
            self.exchange.on_broken();
            self.settle();
        }
        self.task()
    }

    /// The delay asked for has passed.
    pub fn on_slept(&mut self) -> (task: Task)
        ensures
            final(self)@ == next(old(self)@, Signal::Slept),
            task == task_in(final(self)@),
    {
        if let Stage::Waiting { .. } = self.stage {
            let upcoming: u32 = self.retry.attempt();
            assert(upcoming >= 1);
            self.exchange.restart();
            self.stage = Stage::Attempting;
        }
        self.task()
    }
}

} // verus!
