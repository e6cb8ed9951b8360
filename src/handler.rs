//! The actions a callback can ask the robot to take.

use vstd::prelude::*;

use crate::message::OutgoingMessage;

verus! {

/// An action that a callback can take in response to an incoming message.
#[derive(Debug)]
pub enum Action {
    /// Sends a message to the chat service.
    SendMessage(OutgoingMessage),
}

impl Clone for Action {
    fn clone(&self) -> (r: Self)
        ensures
            match (r, *self) {
                (Action::SendMessage(a), Action::SendMessage(b)) => a@ == b@,
            },
    {
        match self {
            Action::SendMessage(m) => Action::SendMessage(m.clone()),
        }
    }
}

} // verus!
