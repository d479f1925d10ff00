//! The retry schedule of the backend forwarder: a bounded number of attempts,
//! with a delay between them that doubles after each failure.

use crate::dispatch::DispatchError;
use vstd::prelude::*;

verus! {

/// The number of attempts made before the backend is given up as unreachable.
pub const MAX_ATTEMPTS: u32 = 3;

/// The delay after the first failed attempt, in milliseconds.
pub const INITIAL_DELAY_MS: u64 = 100;

/// The factor by which the delay grows after each failed attempt.
pub const BACKOFF_MULTIPLIER: u64 = 2;

/// The delay, in milliseconds, that follows the failure of attempt `attempt`
/// (the first attempt is attempt 1).
pub open spec fn delay_after(attempt: nat) -> nat
    decreases attempt,
{
    if attempt <= 1 {
        INITIAL_DELAY_MS as nat
    } else {
        BACKOFF_MULTIPLIER as nat * delay_after((attempt - 1) as nat)
    }
}

/// What follows an attempt, with the attempt to come as a number.
pub enum StepView {
    /// The exchange succeeded: nothing more is attempted.
    Delivered,
    /// The last attempt allowed has failed: nothing more is attempted.
    Unreachable,
    /// Wait `delay_ms` milliseconds, then make attempt `next_attempt`.
    Wait { delay_ms: nat, next_attempt: nat },
}

/// What follows attempt `attempt`, given whether it succeeded.
pub open spec fn step_after(attempt: nat, succeeded: bool) -> StepView {
    if succeeded {
        StepView::Delivered
    } else if attempt < MAX_ATTEMPTS {
        StepView::Wait { delay_ms: delay_after(attempt), next_attempt: attempt + 1 }
    } else {
        StepView::Unreachable
    }
}

/// The attempt in progress and the delay that its failure would bring.
#[derive(Clone, Copy, Debug)]
pub struct RetryState {
    attempt: u32,
    delay_ms: u64,
}

/// What the forwarder does after an attempt.
#[derive(Clone, Copy, Debug)]
pub enum RetryStep {
    /// The exchange succeeded: nothing more is attempted.
    Delivered,
    /// The last attempt allowed has failed: nothing more is attempted.
    Unreachable,
    /// Wait `delay_ms` milliseconds, then make the attempt that `next` stands
    /// for.
    Wait { delay_ms: u64, next: RetryState },
}

impl RetryState {
    /// The number of the attempt in progress, counted from 1.
    pub closed spec fn attempt_number(&self) -> nat {
        self.attempt as nat
    }

    #[verifier::type_invariant]
    spec fn within_schedule(&self) -> bool {
        &&& 1 <= self.attempt <= MAX_ATTEMPTS
        &&& self.delay_ms == delay_after(self.attempt as nat)
    }

    /// The state in which the first attempt is made.
    pub fn start() -> (state: RetryState)
        ensures
            state.attempt_number() == 1,
    {
        RetryState { attempt: 1, delay_ms: INITIAL_DELAY_MS }
    }

    /// The number of the attempt in progress, counted from 1.
    pub fn attempt(&self) -> (number: u32)
        ensures
            number == self.attempt_number(),
            1 <= number <= MAX_ATTEMPTS,
    {
        proof {
            use_type_invariant(self);
        }
        self.attempt
    }

    /// Decides what follows the attempt in progress, given whether it
    /// succeeded: a success ends the forwarding at once; a failure of any
    /// attempt but the last is followed by a wait and another attempt; a
    /// failure of the last ends the forwarding with the backend unreachable.
    pub fn on_outcome(self, succeeded: bool) -> (step: RetryStep)
        ensures
            step@ == step_after(self.attempt_number(), succeeded),
    {
        proof {
            use_type_invariant(self);
            lemma_delays();
        }
        if succeeded {
            RetryStep::Delivered
        } else if self.attempt < MAX_ATTEMPTS {
            let next = RetryState {
                attempt: self.attempt + 1,
                delay_ms: self.delay_ms * BACKOFF_MULTIPLIER,
            };
            RetryStep::Wait { delay_ms: self.delay_ms, next }
        } else {
            RetryStep::Unreachable
        }
    }
}

impl View for RetryStep {
    type V = StepView;

    open spec fn view(&self) -> StepView {
        match self {
            RetryStep::Delivered => StepView::Delivered,
            RetryStep::Unreachable => StepView::Unreachable,
            RetryStep::Wait { delay_ms, next } => StepView::Wait {
                delay_ms: *delay_ms as nat,
                next_attempt: next.attempt_number(),
            },
        }
    }
}

impl RetryStep {
    /// The result of the forwarding, once it has ended: `None` while another
    /// attempt is still to come.
    pub fn conclusion(&self) -> (result: Option<Result<(), DispatchError>>)
        ensures
            result == match self@ {
                StepView::Delivered => Some(Ok::<(), DispatchError>(())),
                StepView::Unreachable => Some(
                    Err::<(), DispatchError>(DispatchError::BackendUnreachable),
                ),
                StepView::Wait { .. } => None,
            },
    {
        match self {
            RetryStep::Delivered => Some(Ok(())),
            RetryStep::Unreachable => Some(Err(DispatchError::BackendUnreachable)),
            RetryStep::Wait { .. } => None,
        }
    }
}

/// What a forwarding came to: how many attempts were made, the delays waited
/// between them in order, and whether the command was delivered.
pub struct Trace {
    pub attempts: nat,
    pub waits: Seq<nat>,
    pub delivered: bool,
}

/// The forwarding from attempt `attempt` on, against a backend on which attempt
/// `k` succeeds exactly when `succeeds(k)`.
pub open spec fn trace_from(attempt: nat, succeeds: spec_fn(nat) -> bool) -> Trace
    decreases MAX_ATTEMPTS - attempt,
{
    match step_after(attempt, succeeds(attempt)) {
        StepView::Delivered => Trace { attempts: attempt, waits: Seq::empty(), delivered: true },
        StepView::Unreachable => Trace {
            attempts: attempt,
            waits: Seq::empty(),
            delivered: false,
        },
        StepView::Wait { delay_ms, next_attempt } => {
            let rest = trace_from(next_attempt, succeeds);
            Trace {
                attempts: rest.attempts,
                waits: seq![delay_ms] + rest.waits,
                delivered: rest.delivered,
            }
        },
    }
}

/// A whole forwarding, from the first attempt on.
pub open spec fn trace(succeeds: spec_fn(nat) -> bool) -> Trace {
    trace_from(1, succeeds)
}

/// Whatever the backend does, at least one attempt is made and never more than
/// `MAX_ATTEMPTS`; a wait stands between two attempts and nowhere else, and the
/// wait after attempt `k` is `delay_after(k)`.
pub proof fn lemma_trace_is_bounded(succeeds: spec_fn(nat) -> bool)
    ensures
        1 <= trace(succeeds).attempts <= MAX_ATTEMPTS,
        trace(succeeds).waits.len() == trace(succeeds).attempts - 1,
        forall|i: int|
            0 <= i < trace(succeeds).waits.len() ==> trace(succeeds).waits[i] == delay_after(
                (i + 1) as nat,
            ),
{
    reveal_with_fuel(trace_from, 4);
    lemma_delays();
}

/// The forwarding ends with the first attempt that succeeds: the command is
/// delivered exactly when one of the attempts allowed succeeds, no attempt
/// before the last one made has succeeded, and the last one made has succeeded
/// exactly when the command is delivered.
pub proof fn lemma_first_success_ends(succeeds: spec_fn(nat) -> bool)
    ensures
        trace(succeeds).delivered <==> exists|k: nat|
            1 <= k <= MAX_ATTEMPTS && #[trigger] succeeds(k),
        forall|k: nat| 1 <= k < trace(succeeds).attempts ==> !#[trigger] succeeds(k),
        trace(succeeds).delivered == succeeds(trace(succeeds).attempts),
        !trace(succeeds).delivered ==> trace(succeeds).attempts == MAX_ATTEMPTS,
{
    reveal_with_fuel(trace_from, 4);
    if trace(succeeds).delivered {
        assert(succeeds(trace(succeeds).attempts));
    }
}

/// Against a backend that fails the first two attempts and succeeds on the
/// third, three attempts are made, with waits of 100 ms and then 200 ms, and
/// the command is delivered.
pub proof fn lemma_third_attempt_delivers(succeeds: spec_fn(nat) -> bool)
    requires
        !succeeds(1),
        !succeeds(2),
        succeeds(3),
    ensures
        trace(succeeds) == (Trace { attempts: 3, waits: seq![100, 200], delivered: true }),
{
    reveal_with_fuel(trace_from, 4);
    lemma_delays();
    assert(trace(succeeds).waits =~= seq![100, 200]);
}

/// Against a backend that fails every attempt allowed, three attempts are made
/// and no fourth, with waits of 100 ms and then 200 ms, and the backend is
/// given up as unreachable.
pub proof fn lemma_exhaustion(succeeds: spec_fn(nat) -> bool)
    requires
        forall|k: nat| 1 <= k <= MAX_ATTEMPTS ==> !#[trigger] succeeds(k),
    ensures
        trace(succeeds) == (Trace { attempts: 3, waits: seq![100, 200], delivered: false }),
{
    reveal_with_fuel(trace_from, 4);
    lemma_delays();
    assert(!succeeds(1) && !succeeds(2) && !succeeds(3));
    assert(trace(succeeds).waits =~= seq![100, 200]);
}

/// The delays of the schedule: 100 ms after the first failure, 200 ms after
/// the second.
pub proof fn lemma_delays()
    ensures
        delay_after(1) == 100,
        delay_after(2) == 200,
        delay_after(3) == 400,
{
    reveal_with_fuel(delay_after, 4);
}

} // verus!
