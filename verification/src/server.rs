//! The mode of the accept loop: whether newcomers are handed on, turned
//! away, or no longer waited for.

use vstd::prelude::*;

verus! {

/// What the listener does with the connections that come in.
#[derive(Clone, Copy, Debug, PartialEq, Eq, Structural)]
pub enum Connection {
    /// Turn each newcomer away: the server is full.
    Drop,
    /// Hand each newcomer to a handler of its own.
    Accept,
    /// Stop listening. The connections that exist run on until they end.
    End,
}

/// What is to be done with one connection that has just come in.
#[derive(Clone, Copy, Debug, PartialEq, Eq, Structural)]
pub enum Admission {
    /// Start a handler for it.
    HandOff,
    /// Tell it that the server is full, and close it.
    Refuse,
    /// Leave the accept loop.
    Stop,
}

impl Connection {
    /// The answer to a connection that comes in while this mode is set.
    pub open spec fn spec_answer(self) -> Admission {
        match self {
            Connection::Accept => Admission::HandOff,
            Connection::Drop => Admission::Refuse,
            Connection::End => Admission::Stop,
        }
    }

    /// The mode after a handler has tried to pass a newcomer on: where a
    /// client was made but nobody took it, listening ends; else the mode
    /// stays.
    pub open spec fn spec_after_handoff(self, joined: bool, taken: bool) -> Connection {
        if joined && !taken {
            Connection::End
        } else {
            self
        }
    }

    /// The answer to a connection that comes in while this mode is set.
    #[verifier::when_used_as_spec(spec_answer)]
    pub fn answer(self) -> (admission: Admission)
        ensures
            admission == self.spec_answer(),
    {
        match self {
            Connection::Accept => Admission::HandOff,
            Connection::Drop => Admission::Refuse,
            Connection::End => Admission::Stop,
        }
    }

    /// The mode after a handler has tried to pass a newcomer on.
    #[verifier::when_used_as_spec(spec_after_handoff)]
    pub fn after_handoff(self, joined: bool, taken: bool) -> (mode: Connection)
        ensures
            mode == self.spec_after_handoff(joined, taken),
    {
        if joined && !taken {
            Connection::End
        } else {
            self
        }
    }

    /// What a newcomer is told when it is turned away.
    pub fn drop_notice() -> (text: &'static str)
        ensures
            text@ == "The server is full"@,
    {
        "The server is full"
    }
}

/// Once listening has ended no newcomer is handed on, whatever the handlers
/// that still run report.
pub proof fn lemma_end_is_final(joined: bool, taken: bool)
    ensures
        Connection::End.spec_after_handoff(joined, taken) == Connection::End,
        Connection::End.spec_answer() == Admission::Stop,
{
}

} // verus!
