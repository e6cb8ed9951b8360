//! The type for chat rooms.

use vstd::prelude::*;

use crate::user::{copy_opt, opt_str_view, opt_view, own_opt};

verus! {

/// What a `Room` holds, as mathematical values.
pub struct RoomView {
    pub id: Seq<char>,
    pub name: Option<Seq<char>>,
}

/// A chat room.
#[derive(Debug)]
pub struct Room {
    id: String,
    name: Option<String>,
}

impl View for Room {
    type V = RoomView;

    closed spec fn view(&self) -> RoomView {
        RoomView { id: self.id@, name: opt_view(self.name) }
    }
}

impl Clone for Room {
    fn clone(&self) -> (r: Self)
        ensures
            r == *self,
    {
        Room { id: self.id.clone(), name: copy_opt(&self.name) }
    }
}

impl Room {
    /// Creates a new `Room`.
    pub fn new(id: &str, name: Option<&str>) -> (r: Self)
        ensures
            r@.id == id@,
            r@.name == opt_str_view(name),
    {
        Room { id: id.to_owned(), name: own_opt(name) }
    }

    /// A unique identifier for the room.
    pub fn id(&self) -> (r: &str)
        ensures
            r@ == self@.id,
    {
        self.id.as_str()
    }

    /// A human-readable name for the room.
    pub fn name(&self) -> (r: Option<&str>)
        ensures
            opt_str_view(r) == self@.name,
    {
        match &self.name {
            Some(n) => Some(n.as_str()),
            None => None,
        }
    }
}

} // verus!
