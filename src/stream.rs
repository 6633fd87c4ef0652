//! What to do with each message of a streamed response.
//!
//! The caller reads the stream, turns each message into a [`StreamEvent`],
//! and carries out the [`StreamAction`] it gets back. Any transport failure
//! ends the response, for every kind of generator.

use vstd::prelude::*;

verus! {

/// One message from a response stream.
pub enum StreamEvent {
    /// A fragment of generated text.
    Text(String),
    /// A message that carries no text, such as the start or the end of a
    /// content block.
    NoText,
    /// The transport failed, with its description.
    Failure(String),
    /// The stream is exhausted.
    End,
}

/// What the caller does next.
pub enum StreamAction {
    /// Write the text to standard output and flush it at once.
    Write(String),
    /// Nothing; wait for the next message.
    Wait,
    /// Write the closing newline: the response is complete.
    Finish,
    /// Stop the run with this description of the failure.
    Abort(String),
}

/// Where a response stream stands.
#[derive(Debug, Clone, Copy, PartialEq, Eq, Structural)]
pub enum StreamState {
    /// Messages are still arriving.
    Open,
    /// The stream ended and the response is complete.
    Completed,
    /// The transport failed.
    Failed,
}

impl StreamState {
    /// Takes one message and says what to do with it. Once the stream is
    /// completed or failed, every further message is ignored.
    pub fn on_event(&mut self, event: StreamEvent) -> (r: StreamAction)
        ensures
            *old(self) !is Open ==> *final(self) == *old(self) && r is Wait,
            *old(self) is Open ==> match event {
                StreamEvent::Text(t) => *final(self) is Open && (r matches StreamAction::Write(w)
                    && w@ == t@),
                StreamEvent::NoText => *final(self) is Open && r is Wait,
                StreamEvent::Failure(d) => *final(self) is Failed && (r matches StreamAction::Abort(
                    w,
                ) && w@ == d@),
                StreamEvent::End => *final(self) is Completed && r is Finish,
            },
    {
        if *self != StreamState::Open {
            return StreamAction::Wait;
        }
        match event {
            StreamEvent::Text(t) => StreamAction::Write(t),
            StreamEvent::NoText => StreamAction::Wait,
            StreamEvent::Failure(d) => {
                *self = StreamState::Failed;
                StreamAction::Abort(d)
            },
            StreamEvent::End => {
                *self = StreamState::Completed;
                StreamAction::Finish
            },
        }
    }
}

} // verus!
