//! Types for sending and receiving messages.

use vstd::prelude::*;
use vstd::utf8::{encode_utf8, encode_utf8_valid_utf8, is_char_boundary};

use crate::room::Room;
use crate::user::User;

verus! {

/// The source of an incoming message.
#[derive(Debug)]
pub enum Source {
    /// A direct message from a user.
    User(User),
    /// A message from a user in room.
    UserInRoom(User, Room),
}

/// The target of an outgoing message.
#[derive(Debug)]
pub enum Target {
    /// A message to a room.
    Room(Room),
    /// A message to a user.
    User(User),
    /// A message to a specific user in a room.
    UserInRoom(User, Room),
}

impl Clone for Source {
    fn clone(&self) -> (r: Self)
        ensures
            r == *self,
    {
        match self {
            Source::User(u) => Source::User(u.clone()),
            Source::UserInRoom(u, room) => Source::UserInRoom(u.clone(), room.clone()),
        }
    }
}

impl Clone for Target {
    fn clone(&self) -> (r: Self)
        ensures
            r == *self,
    {
        match self {
            Target::Room(room) => Target::Room(room.clone()),
            Target::User(u) => Target::User(u.clone()),
            Target::UserInRoom(u, room) => Target::UserInRoom(u.clone(), room.clone()),
        }
    }
}

impl Source {
    /// The user who sent the message.
    pub open spec fn spec_user(self) -> User {
        match self {
            Source::User(u) => u,
            Source::UserInRoom(u, _) => u,
        }
    }

    /// The room the message was sent from, if any.
    pub open spec fn spec_room(self) -> Option<Room> {
        match self {
            Source::User(_) => None,
            Source::UserInRoom(_, room) => Some(room),
        }
    }

    /// The user that sent the message.
    pub fn user(&self) -> (r: &User)
        ensures
            *r == self.spec_user(),
    {
        match self {
            Source::User(u) => u,
            Source::UserInRoom(u, _) => u,
        }
    }

    /// The room the message was sent from, if any.
    pub fn room(&self) -> (r: Option<&Room>)
        ensures
            r is Some <==> self.spec_room() is Some,
            r is Some ==> *r->0 == self.spec_room()->0,
    {
        match self {
            Source::User(_) => None,
            Source::UserInRoom(_, room) => Some(room),
        }
    }

    /// Where a reply goes: back to the channel the message came from.
    pub open spec fn reply_target(self) -> Target {
        match self {
            Source::User(u) => Target::User(u),
            Source::UserInRoom(_, room) => Target::Room(room),
        }
    }

    /// Where a private reply goes: always straight to the user.
    pub open spec fn private_target(self) -> Target {
        Target::User(self.spec_user())
    }

    /// Where a reply with a mention goes: the user, inside the room if there is one.
    pub open spec fn mention_target(self) -> Target {
        match self {
            Source::User(u) => Target::User(u),
            Source::UserInRoom(u, room) => Target::UserInRoom(u, room),
        }
    }
}

/// The UTF-8 bytes of a sequence of characters.
pub open spec fn utf8_of(s: Seq<char>) -> Seq<u8> {
    encode_utf8(s)
}

/// What an `IncomingMessage` holds, as mathematical values.
pub struct IncomingMessageView {
    /// The body exactly as it was received.
    pub body: Seq<char>,
    /// The byte offset in the body's UTF-8 encoding where a leading mention of the robot ends.
    pub mention_offset: nat,
    pub source: Source,
}

/// An incoming chat message.
#[derive(Debug)]
pub struct IncomingMessage {
    body: String,
    mention_offset: usize,
    source: Source,
}

impl View for IncomingMessage {
    type V = IncomingMessageView;

    closed spec fn view(&self) -> IncomingMessageView {
        IncomingMessageView {
            body: self.body@,
            mention_offset: self.mention_offset as nat,
            source: self.source,
        }
    }
}

impl Clone for IncomingMessage {
    fn clone(&self) -> (r: Self)
        ensures
            r@ == self@,
    {
        proof {
            use_type_invariant(self);
        }
        IncomingMessage {
            body: self.body.clone(),
            mention_offset: self.mention_offset,
            source: self.source.clone(),
        }
    }
}

impl IncomingMessage {
    /// The mention offset falls between two characters of the body.
    #[verifier::type_invariant]
    spec fn offset_on_boundary(&self) -> bool {
        is_char_boundary(utf8_of(self.body@), self.mention_offset as int)
    }

    /// Creates a new `IncomingMessage`.
    pub fn new(source: Source, body: String, mention_offset: usize) -> (r: Self)
        requires
            mention_offset == 0 || is_char_boundary(utf8_of(body@), mention_offset as int),
        ensures
            r@.body == body@,
            r@.mention_offset == mention_offset,
            r@.source == source,
    {
        proof {
            encode_utf8_valid_utf8(body@);
        }
        IncomingMessage { body, mention_offset, source }
    }

    /// The body of the message.
    ///
    /// If the message began with a mention of the robot, it is removed from the body of the
    /// message. To get the full, unaltered message body, use `raw_body` instead.
    pub fn body(&self) -> (r: &str)
        ensures
            utf8_of(r@) == utf8_of(self@.body).subrange(
                self@.mention_offset as int,
                utf8_of(self@.body).len() as int,
            ),
    {
        proof {
            use_type_invariant(self);
        }
        let (_, rest) = self.body.as_str().split_at(self.mention_offset);
        rest
    }

    /// The body of the message exactly as it was received from the chat service.
    ///
    /// To get the body with any initial mention of the robot removed, use `body` instead.
    pub fn raw_body(&self) -> (r: &str)
        ensures
            r@ == self@.body,
    {
        self.body.as_str()
    }

    /// The byte offset where a leading mention of the robot ends; zero when there is none.
    pub fn mention_offset(&self) -> (r: usize)
        ensures
            r == self@.mention_offset,
    {
        self.mention_offset
    }

    /// The source of the message.
    pub fn source(&self) -> (r: &Source)
        ensures
            *r == self@.source,
    {
        &self.source
    }

    /// Creates an `OutgoingMessage` targeting the source of the incoming message.
    pub fn reply(&self, body: &str) -> (r: OutgoingMessage)
        ensures
            r@.body == body@,
            r@.target == self@.source.reply_target(),
    {
        let target = match &self.source {
            Source::User(user) => Target::User(user.clone()),
            Source::UserInRoom(_, room) => Target::Room(room.clone()),
        };
        OutgoingMessage::new(target, body)
    }

    /// Creates an `OutgoingMessage` directly targeting the source of the incoming message.
    pub fn reply_privately(&self, body: &str) -> (r: OutgoingMessage)
        ensures
            r@.body == body@,
            r@.target == self@.source.private_target(),
    {
        let target = match &self.source {
            Source::User(user) => Target::User(user.clone()),
            Source::UserInRoom(user, _) => Target::User(user.clone()),
        };
        OutgoingMessage::new(target, body)
    }

    /// Creates an `OutgoingMessage` targeting the source of the incoming message and, if the
    /// incoming message came from a room, addressing the user who sent it.
    pub fn reply_with_mention(&self, body: &str) -> (r: OutgoingMessage)
        ensures
            r@.body == body@,
            r@.target == self@.source.mention_target(),
    {
        let target = match &self.source {
            Source::User(user) => Target::User(user.clone()),
            Source::UserInRoom(user, room) => Target::UserInRoom(user.clone(), room.clone()),
        };
        OutgoingMessage::new(target, body)
    }

    /// The room the message was sent from, if any.
    pub fn room(&self) -> (r: Option<&Room>)
        ensures
            r is Some <==> self@.source.spec_room() is Some,
            r is Some ==> *r->0 == self@.source.spec_room()->0,
    {
        self.source.room()
    }

    /// The user that sent the message.
    pub fn user(&self) -> (r: &User)
        ensures
            *r == self@.source.spec_user(),
    {
        self.source.user()
    }
}

/// What an `OutgoingMessage` holds, as mathematical values.
pub struct OutgoingMessageView {
    pub body: Seq<char>,
    pub target: Target,
}

/// An outgoing chat message.
#[derive(Debug)]
pub struct OutgoingMessage {
    body: String,
    target: Target,
}

impl View for OutgoingMessage {
    type V = OutgoingMessageView;

    closed spec fn view(&self) -> OutgoingMessageView {
        OutgoingMessageView { body: self.body@, target: self.target }
    }
}

impl Clone for OutgoingMessage {
    fn clone(&self) -> (r: Self)
        ensures
            r@ == self@,
    {
        OutgoingMessage { body: self.body.clone(), target: self.target.clone() }
    }
}

impl OutgoingMessage {
    /// Creates a new `OutgoingMessage`.
    pub fn new(target: Target, body: &str) -> (r: Self)
        ensures
            r@.body == body@,
            r@.target == target,
    {
        OutgoingMessage { body: body.to_owned(), target }
    }

    /// The body of the message.
    pub fn body(&self) -> (r: &str)
        ensures
            r@ == self@.body,
    {
        self.body.as_str()
    }

    /// Where the message goes.
    pub fn target(&self) -> (r: &Target)
        ensures
            *r == self@.target,
    {
        &self.target
    }
}

} // verus!
