//! The acceptance state machine of a TLS connection: the handshake is driven
//! by the first read or write, and everything after it goes to the session.

use vstd::prelude::*;

verus! {

/// Where a connection stands.
#[derive(Clone, Copy, Debug, PartialEq, Eq, Structural)]
pub enum State {
    /// The handshake has not completed.
    Handshaking,
    /// The session is established.
    Streaming,
}

/// What is asked of the byte stream.
#[derive(Clone, Copy, Debug, PartialEq, Eq, Structural)]
pub enum Operation {
    Read,
    Write,
    Flush,
    Shutdown,
}

/// What a poll of the pending handshake gave.
#[derive(Clone, Copy, Debug, PartialEq, Eq, Structural)]
pub enum Handshake {
    /// Not finished yet.
    Pending,
    /// The session is established.
    Established,
    /// The handshake failed.
    Failed,
}

/// What the caller does next.
#[derive(Clone, Copy, Debug, PartialEq, Eq, Structural)]
pub enum Step {
    /// Poll the pending handshake and report what it gave.
    DriveHandshake,
    /// Hand the operation to the established session.
    Delegate,
    /// Complete at once with success, doing nothing.
    Complete,
    /// Report that the operation is still pending.
    Wait,
    /// Fail the operation with the handshake's error.
    Fail,
}

/// The state of one accepted connection on the secure port.
#[derive(Clone, Copy, Debug)]
pub struct TlsStream {
    state: State,
}

/// What an operation calls for in a state: reads and writes drive a pending
/// handshake, flush and close succeed at once while it is pending, and an
/// established session takes every operation.
pub open spec fn step_for(state: State, operation: Operation) -> Step {
    match state {
        State::Streaming => Step::Delegate,
        State::Handshaking => match operation {
            Operation::Read | Operation::Write => Step::DriveHandshake,
            Operation::Flush | Operation::Shutdown => Step::Complete,
        },
    }
}

/// The state after a poll of the handshake.
pub open spec fn state_after(state: State, outcome: Handshake) -> State {
    match outcome {
        Handshake::Established => State::Streaming,
        _ => state,
    }
}

/// What follows a poll of the handshake: the same operation goes to the new
/// session, or waits, or fails.
pub open spec fn step_after(outcome: Handshake) -> Step {
    match outcome {
        Handshake::Established => Step::Delegate,
        Handshake::Pending => Step::Wait,
        Handshake::Failed => Step::Fail,
    }
}

impl TlsStream {
    /// Where the connection stands.
    pub closed spec fn state(&self) -> State {
        self.state
    }

    /// A connection whose handshake has not started.
    pub fn new() -> (stream: Self)
        ensures
            stream.state() == State::Handshaking,
    {
        Self { state: State::Handshaking }
    }

    /// Where the connection stands.
    pub fn current(&self) -> (state: State)
        ensures
            state == self.state(),
    {
        self.state
    }

    /// What an operation calls for now. The state does not change.
    pub fn poll(&self, operation: Operation) -> (step: Step)
        ensures
            step == step_for(self.state(), operation),
    {
        match self.state {
            State::Streaming => Step::Delegate,
            State::Handshaking => match operation {
                Operation::Read | Operation::Write => Step::DriveHandshake,
                Operation::Flush | Operation::Shutdown => Step::Complete,
            },
        }
    }

    /// Takes in what a poll of the handshake gave and says what follows.
    pub fn handshake_polled(&mut self, outcome: Handshake) -> (step: Step)
        ensures
            final(self).state() == state_after(old(self).state(), outcome),
            step == step_after(outcome),
    {
        match outcome {
            Handshake::Established => {
                self.state = State::Streaming;
                Step::Delegate
            },
            Handshake::Pending => Step::Wait,
            Handshake::Failed => Step::Fail,
        }
    }
}

/// Once a session is established it stays established, whatever is polled
/// afterwards, and every operation goes to it.
pub proof fn lemma_streaming_is_final(outcome: Handshake, operation: Operation)
    ensures
        state_after(State::Streaming, outcome) == State::Streaming,
        step_for(State::Streaming, operation) == Step::Delegate,
{
}

} // verus!
