//! The runtime API exposed to callbacks.

use vstd::prelude::*;

use crate::handler::Action;
use crate::message::{utf8_of, IncomingMessage, IncomingMessageView};
use crate::result::Error;
use crate::room::Room;
use crate::store::{lookup, scoped_key, ScopedStore, Store};
use crate::user::{opt_view, User};

verus! {

/// The API for callbacks to interface with the incoming message and data stores.
pub struct Handle<S> {
    message: IncomingMessage,
    scoped_store: ScopedStore<S>,
}

/// The message an action sends, when it sends one.
pub open spec fn sends(action: Action, body: Seq<char>, target: crate::message::Target) -> bool {
    match action {
        Action::SendMessage(m) => m@.body == body && m@.target == target,
    }
}

impl<S: Store> Handle<S> {
    /// The incoming message.
    pub closed spec fn spec_message(&self) -> IncomingMessageView {
        self.message@
    }

    /// The robot's root store.
    pub closed spec fn spec_root(&self) -> S {
        self.scoped_store.spec_parent()
    }

    /// The namespace the callback's keys are kept under.
    pub closed spec fn spec_namespace(&self) -> Seq<char> {
        self.scoped_store.spec_prefix()
    }

    /// The key in the root store under which this handle keeps `key`.
    pub open spec fn root_key(&self, key: Seq<char>) -> Seq<char> {
        scoped_key(self.spec_namespace(), self.spec_root().spec_separator(), key)
    }

    /// Creates a new `Handle`.
    pub fn new(message: IncomingMessage, namespace: &str, store: S) -> (r: Self)
        ensures
            r.spec_message() == message@,
            r.spec_namespace() == namespace@,
            r.spec_root() == store,
    {
        Handle { message, scoped_store: ScopedStore::new(store, namespace) }
    }

    /// The incoming message.
    pub fn message(&self) -> (r: &IncomingMessage)
        ensures
            r@ == self.spec_message(),
    {
        &self.message
    }

    /// The namespace the callback's keys are kept under.
    pub fn namespace(&self) -> (r: &str)
        ensures
            r@ == self.spec_namespace(),
    {
        self.scoped_store.prefix()
    }

    /// The body of the incoming message, without a leading mention of the robot.
    pub fn message_body(&self) -> (r: &str)
        ensures
            utf8_of(r@) == utf8_of(self.spec_message().body).subrange(
                self.spec_message().mention_offset as int,
                utf8_of(self.spec_message().body).len() as int,
            ),
    {
        self.message.body()
    }

    /// Replies to the incoming message.
    pub fn reply(&self, body: &str) -> (r: Action)
        ensures
            sends(r, body@, self.spec_message().source.reply_target()),
    {
        Action::SendMessage(self.message.reply(body))
    }

    /// Replies directly to the sender of the incoming message.
    pub fn reply_privately(&self, body: &str) -> (r: Action)
        ensures
            sends(r, body@, self.spec_message().source.private_target()),
    {
        Action::SendMessage(self.message.reply_privately(body))
    }

    /// Replies to the incoming message, addressing the sender by name if the reply will be
    /// delivered to a room.
    pub fn reply_with_mention(&self, body: &str) -> (r: Action)
        ensures
            sends(r, body@, self.spec_message().source.mention_target()),
    {
        Action::SendMessage(self.message.reply_with_mention(body))
    }

    /// The room the incoming message was sent from, if any.
    pub fn room(&self) -> (r: Option<&Room>)
        ensures
            r is Some <==> self.spec_message().source.spec_room() is Some,
            r is Some ==> *r->0 == self.spec_message().source.spec_room()->0,
    {
        self.message.room()
    }

    /// The user that sent the incoming message.
    pub fn user(&self) -> (r: &User)
        ensures
            *r == self.spec_message().source.spec_user(),
    {
        self.message.user()
    }

    /// Gets the value of the given key, if any, from the robot's core data store.
    ///
    /// The key is scoped to the callback's namespace.
    pub fn get(&self, key: &str) -> (r: Result<Option<String>, Error>)
        ensures
            self.spec_root().infallible() ==> r is Ok,
            r is Ok ==> opt_view(r->Ok_0) == lookup(self.spec_root().entries(), self.root_key(key@)),
    {
        self.scoped_store.get(key)
    }

    /// Sets the given key to the given value in the robot's core data store.
    ///
    /// The key is scoped to the callback's namespace.
    pub fn set(&mut self, key: &str, value: &str) -> (r: Result<(), Error>)
        ensures
            old(self).spec_root().infallible() ==> r is Ok,
            final(self).spec_message() == old(self).spec_message(),
            final(self).spec_namespace() == old(self).spec_namespace(),
            final(self).spec_root().spec_separator() == old(self).spec_root().spec_separator(),
            final(self).spec_root().infallible() == old(self).spec_root().infallible(),
            r is Ok ==> final(self).spec_root().entries() == old(self).spec_root().entries().insert(
                old(self).root_key(key@),
                value@,
            ),
    {
        self.scoped_store.set(key, value)
    }

    /// The robot's root store.
    pub fn store(&self) -> (r: &S)
        ensures
            *r == self.spec_root(),
    {
        self.scoped_store.parent()
    }

    /// Gives back the robot's root store.
    pub fn into_store(self) -> (r: S)
        ensures
            r == self.spec_root(),
    {
        self.scoped_store.into_parent()
    }
}

} // verus!
