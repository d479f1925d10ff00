//! One exchange with the backend over a fresh connection: wait for the prompt,
//! send the command, read through the next prompt.

use vstd::prelude::*;

verus! {

/// The byte with which the backend ends its ready signal and each response.
pub const PROMPT: u8 = 0x3e;

/// The number of prompt bytes in `bytes`.
pub open spec fn count_prompts(bytes: Seq<u8>) -> nat
    decreases bytes.len(),
{
    if bytes.len() == 0 {
        0
    } else {
        count_prompts(bytes.drop_last()) + if bytes.last() == PROMPT {
            1nat
        } else {
            0nat
        }
    }
}

/// How far an exchange has come.
#[derive(Copy, Clone, PartialEq, Eq, Structural, Debug)]
pub enum Phase {
    /// The connection is being opened.
    Connecting,
    /// Connected; the backend's ready prompt has not been seen yet.
    AwaitingPrompt,
    /// The prompt was seen; the command is being written.
    Sending,
    /// The command was written; the prompt that ends the response has not been
    /// seen yet.
    AwaitingReply,
    /// The response was read through its prompt.
    Complete,
    /// The exchange was given up.
    Failed,
}

/// What the driver of an exchange has to do next.
#[derive(Copy, Clone, PartialEq, Eq, Structural, Debug)]
pub enum Action {
    /// Open a new connection to the backend.
    Connect,
    /// Read whatever bytes the backend sends next.
    Read,
    /// Write the command, all of it and nothing else.
    Write,
    /// Nothing more: the exchange succeeded.
    Finish,
    /// Nothing more: the exchange failed.
    Abort,
}

/// What the driver of an exchange reports back.
pub enum Event {
    /// The connection is open.
    Connected,
    /// These bytes arrived.
    Received(Seq<u8>),
    /// The command was written.
    Written,
    /// The backend closed the connection.
    Closed,
    /// Connecting, reading or writing failed.
    Broken,
}

/// The state of an exchange: the command to send, the phase reached, and
/// whether the prompt that ends the response has already arrived, behind the
/// ready prompt, before the command was written.
pub struct ExchangeView {
    pub command: Seq<u8>,
    pub phase: Phase,
    pub reply_seen: bool,
}

/// The state in which an exchange for `command` begins.
pub open spec fn initial(command: Seq<u8>) -> ExchangeView {
    ExchangeView { command, phase: Phase::Connecting, reply_seen: false }
}

/// What the driver has to do in phase `phase`.
pub open spec fn action_in(phase: Phase) -> Action {
    match phase {
        Phase::Connecting => Action::Connect,
        Phase::AwaitingPrompt => Action::Read,
        Phase::Sending => Action::Write,
        Phase::AwaitingReply => Action::Read,
        Phase::Complete => Action::Finish,
        Phase::Failed => Action::Abort,
    }
}

/// The phase that follows `state` on `event`. A finished exchange stays as it
/// is. The prompt is awaited before the command is written, and the response
/// is read through the next prompt; a closed or broken connection, or an event
/// that the phase does not wait for, fails the exchange.
pub open spec fn phase_after(state: ExchangeView, event: Event) -> Phase {
    match (state.phase, event) {
        (Phase::Complete, _) => Phase::Complete,
        (Phase::Connecting, Event::Connected) => Phase::AwaitingPrompt,
        (Phase::AwaitingPrompt, Event::Received(bytes)) => if count_prompts(bytes) >= 1 {
            Phase::Sending
        } else {
            Phase::AwaitingPrompt
        },
        (Phase::Sending, Event::Written) => if state.reply_seen {
            Phase::Complete
        } else {
            Phase::AwaitingReply
        },
        (Phase::AwaitingReply, Event::Received(bytes)) => if count_prompts(bytes) >= 1 {
            Phase::Complete
        } else {
            Phase::AwaitingReply
        },
        _ => Phase::Failed,
    }
}

/// The state that follows `state` on `event`.
pub open spec fn next(state: ExchangeView, event: Event) -> ExchangeView {
    ExchangeView {
        command: state.command,
        phase: phase_after(state, event),
        reply_seen: match (state.phase, event) {
            (Phase::AwaitingPrompt, Event::Received(bytes)) => count_prompts(bytes) >= 2,
            _ => state.reply_seen,
        },
    }
}

/// The state reached from `state` after `events`, in order.
pub open spec fn run(state: ExchangeView, events: Seq<Event>) -> ExchangeView
    decreases events.len(),
{
    if events.len() == 0 {
        state
    } else {
        next(run(state, events.drop_last()), events.last())
    }
}

/// The number of times the command was written in the course of `events`: the
/// reports of a write that came while the exchange, begun in `state`, was
/// sending.
pub open spec fn writes(state: ExchangeView, events: Seq<Event>) -> nat
    decreases events.len(),
{
    if events.len() == 0 {
        0
    } else {
        writes(state, events.drop_last()) + if run(state, events.drop_last()).phase
            == Phase::Sending && events.last() is Written {
            1nat
        } else {
            0nat
        }
    }
}

/// The number of prompt bytes among all the bytes that arrived in `events`.
pub open spec fn prompts_received(events: Seq<Event>) -> nat
    decreases events.len(),
{
    if events.len() == 0 {
        0
    } else {
        prompts_received(events.drop_last()) + match events.last() {
            Event::Received(bytes) => count_prompts(bytes),
            _ => 0nat,
        }
    }
}

/// Whatever is reported, in whatever order, an exchange keeps its command as
/// it was handed in, and writes it at most once: not at all before the write
/// is asked for, and exactly once where the response is awaited or the
/// exchange is complete.
pub proof fn lemma_one_write(command: Seq<u8>, events: Seq<Event>)
    ensures
        run(initial(command), events).command == command,
        writes(initial(command), events) <= 1,
        match run(initial(command), events).phase {
            Phase::Connecting | Phase::AwaitingPrompt | Phase::Sending => writes(
                initial(command),
                events,
            ) == 0,
            Phase::AwaitingReply | Phase::Complete => writes(initial(command), events) == 1,
            Phase::Failed => true,
        },
    decreases events.len(),
{
    if events.len() > 0 {
        lemma_one_write(command, events.drop_last());
    }
}

/// The command is written only after a prompt has arrived, and the exchange is
/// complete only after a second one has.
pub proof fn lemma_prompts_come_first(command: Seq<u8>, events: Seq<Event>)
    ensures
        match run(initial(command), events).phase {
            Phase::Connecting | Phase::AwaitingPrompt | Phase::Failed => true,
            Phase::Sending => prompts_received(events) >= 1 && (run(
                initial(command),
                events,
            ).reply_seen ==> prompts_received(events) >= 2),
            Phase::AwaitingReply => prompts_received(events) >= 1,
            Phase::Complete => prompts_received(events) >= 2,
        },
    decreases events.len(),
{
    if events.len() > 0 {
        lemma_prompts_come_first(command, events.drop_last());
    }
}

/// Once an exchange has ended, nothing that is reported changes it.
pub proof fn lemma_ended_stays(state: ExchangeView, event: Event)
    requires
        state.phase == Phase::Complete || state.phase == Phase::Failed,
    ensures
        next(state, event) == state,
{
}

/// Counts the prompt bytes in `chunk`.
pub fn prompts_in(chunk: &[u8]) -> (count: usize)
    ensures
        count == count_prompts(chunk@),
{
    let mut count: usize = 0;
    let mut i: usize = 0;
    while i < chunk.len()
        invariant
            i <= chunk.len(),
            count <= i,
            count == count_prompts(chunk@.subrange(0, i as int)),
        decreases chunk.len() - i,
    {
        assert(chunk@.subrange(0, i + 1).drop_last() =~= chunk@.subrange(0, i as int));
        if chunk[i] == PROMPT {
            count += 1;
        }
        i += 1;
    }
    assert(chunk@.subrange(0, i as int) =~= chunk@);
    count
}

/// One exchange with the backend, for one command over one connection.
pub struct Exchange {
    command: Vec<u8>,
    phase: Phase,
    reply_seen: bool,
}

impl View for Exchange {
    type V = ExchangeView;

    closed spec fn view(&self) -> ExchangeView {
        ExchangeView { command: self.command@, phase: self.phase, reply_seen: self.reply_seen }
    }
}

impl Exchange {
    /// An exchange that will send `command`, before anything was done.
    pub fn new(command: Vec<u8>) -> (exchange: Exchange)
        ensures
            exchange@ == initial(command@),
    {
        Exchange { command, phase: Phase::Connecting, reply_seen: false }
    }

    /// Begins the exchange anew, for the same command, as over a connection
    /// that has yet to be opened.
    pub fn restart(&mut self)
        ensures
            final(self)@ == initial(old(self)@.command),
    {
        self.phase = Phase::Connecting;
        self.reply_seen = false;
    }

    /// The bytes to write when the action is `Write`: the command as it was
    /// handed in.
    pub fn command(&self) -> (bytes: &Vec<u8>)
        ensures
            bytes@ == self@.command,
    {
        &self.command
    }

    /// The phase reached.
    pub fn phase(&self) -> (phase: Phase)
        ensures
            phase == self@.phase,
    {
        self.phase
    }

    /// What the driver has to do next.
    pub fn action(&self) -> (action: Action)
        ensures
            action == action_in(self@.phase),
    {
        match self.phase {
            Phase::Connecting => Action::Connect,
            Phase::AwaitingPrompt => Action::Read,
            Phase::Sending => Action::Write,
            Phase::AwaitingReply => Action::Read,
            Phase::Complete => Action::Finish,
            Phase::Failed => Action::Abort,
        }
    }

    /// Whether the exchange has ended, and how: `Some(true)` once the response
    /// was read through its prompt, `Some(false)` once the exchange failed,
    /// `None` while it is under way.
    pub fn outcome(&self) -> (outcome: Option<bool>)
        ensures
            outcome == match self@.phase {
                Phase::Complete => Some(true),
                Phase::Failed => Some(false),
                _ => None::<bool>,
            },
    {
        match self.phase {
            Phase::Complete => Some(true),
            Phase::Failed => Some(false),
            _ => None,
        }
    }

    /// The connection is open.
    pub fn on_connected(&mut self) -> (action: Action)
        ensures
            final(self)@ == next(old(self)@, Event::Connected),
            action == action_in(final(self)@.phase),
    {
        self.phase =
        match self.phase {
            Phase::Complete => Phase::Complete,
            Phase::Connecting => Phase::AwaitingPrompt,
            _ => Phase::Failed,
        };
        self.action()
    }

    /// The bytes of `chunk` arrived.
    pub fn on_received(&mut self, chunk: &[u8]) -> (action: Action)
        ensures
            final(self)@ == next(old(self)@, Event::Received(chunk@)),
            action == action_in(final(self)@.phase),
    {
        match self.phase {
            Phase::Complete => {},
            Phase::AwaitingPrompt => {
                let count: usize = prompts_in(chunk);
                if count >= 1 {
                    self.phase = Phase::Sending;
                }
                self.reply_seen = count >= 2;
            },
            Phase::AwaitingReply => {
                if prompts_in(chunk) >= 1 {
                    self.phase = Phase::Complete;
                }
            },
            _ => {
                self.phase = Phase::Failed;
            },
        }
        self.action()
    }

    /// The command was written.
    pub fn on_written(&mut self) -> (action: Action)
        ensures
            final(self)@ == next(old(self)@, Event::Written),
            action == action_in(final(self)@.phase),
    {
        self.phase =
        match self.phase {
            Phase::Complete => Phase::Complete,
            Phase::Sending => if self.reply_seen {
                Phase::Complete
            } else {
                Phase::AwaitingReply
            },
            _ => Phase::Failed,
        };
        self.action()
    }

    /// The backend closed the connection.
    pub fn on_closed(&mut self) -> (action: Action)
        ensures
            final(self)@ == next(old(self)@, Event::Closed),
            action == action_in(final(self)@.phase),
    {
        self.phase =
        match self.phase {
            Phase::Complete => Phase::Complete,
            _ => Phase::Failed,
        };
        self.action()
    }

    /// Connecting, reading or writing failed.
    pub fn on_broken(&mut self) -> (action: Action)
        ensures
            final(self)@ == next(old(self)@, Event::Broken),
            action == action_in(final(self)@.phase),
    {
        self.phase =
        match self.phase {
            Phase::Complete => Phase::Complete,
            _ => Phase::Failed,
        };
        self.action()
    }
}

} // verus!
