//! The type for chat users.

use vstd::prelude::*;

verus! {

/// What a `User` holds, as mathematical values.
pub struct UserView {
    pub id: Seq<char>,
    pub username: Option<Seq<char>>,
    pub display_name: Option<Seq<char>>,
}

/// The view of an optional string.
pub open spec fn opt_view(o: Option<String>) -> Option<Seq<char>> {
    match o {
        Some(s) => Some(s@),
        None => None,
    }
}

/// The view of an optional string slice.
pub open spec fn opt_str_view(o: Option<&str>) -> Option<Seq<char>> {
    match o {
        Some(s) => Some(s@),
        None => None,
    }
}

/// Copies an optional string.
pub(crate) fn copy_opt(o: &Option<String>) -> (r: Option<String>)
    ensures
        r == *o,
{
    match o {
        Some(s) => Some(s.clone()),
        None => None,
    }
}

/// Turns an optional string slice into an optional owned string.
pub(crate) fn own_opt(o: Option<&str>) -> (r: Option<String>)
    ensures
        opt_view(r) == opt_str_view(o),
{
    match o {
        Some(s) => Some(s.to_owned()),
        None => None,
    }
}

/// A user of a chat service.
#[derive(Debug)]
pub struct User {
    id: String,
    username: Option<String>,
    display_name: Option<String>,
}

impl View for User {
    type V = UserView;

    closed spec fn view(&self) -> UserView {
        UserView {
            id: self.id@,
            username: opt_view(self.username),
            display_name: opt_view(self.display_name),
        }
    }
}

impl UserView {
    /// The username, which falls back to the identifier.
    pub open spec fn effective_username(self) -> Seq<char> {
        match self.username {
            Some(u) => u,
            None => self.id,
        }
    }

    /// The display name, which falls back to the username.
    pub open spec fn effective_display_name(self) -> Seq<char> {
        match self.display_name {
            Some(d) => d,
            None => self.effective_username(),
        }
    }
}

impl Clone for User {
    fn clone(&self) -> (r: Self)
        ensures
            r == *self,
    {
        User {
            id: self.id.clone(),
            username: copy_opt(&self.username),
            display_name: copy_opt(&self.display_name),
        }
    }
}

impl User {
    /// Creates a new `User`.
    pub fn new(id: &str, username: Option<&str>, display_name: Option<&str>) -> (r: Self)
        ensures
            r@.id == id@,
            r@.username == opt_str_view(username),
            r@.display_name == opt_str_view(display_name),
    {
        User { id: id.to_owned(), username: own_opt(username), display_name: own_opt(display_name) }
    }

    /// A unique identifier for the user.
    ///
    /// This identifier is a username in most cases.
    pub fn id(&self) -> (r: &str)
        ensures
            r@ == self@.id,
    {
        self.id.as_str()
    }

    /// A username for the user.
    ///
    /// Services that do not distinguish between ID and username give the ID.
    pub fn username(&self) -> (r: Option<&str>)
        ensures
            r is Some,
            r->0@ == self@.effective_username(),
    {
        match &self.username {
            Some(u) => Some(u.as_str()),
            None => Some(self.id.as_str()),
        }
    }

    /// A human-readable name for the user.
    ///
    /// Services that do not distinguish between username and display name give the username.
    pub fn display_name(&self) -> (r: Option<&str>)
        ensures
            r is Some,
            r->0@ == self@.effective_display_name(),
    {
        match &self.display_name {
            Some(d) => Some(d.as_str()),
            None => self.username(),
        }
    }
}

} // verus!
