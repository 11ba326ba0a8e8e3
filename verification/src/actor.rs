//! Actor-side types: the display name and the readable actor identifier.

pub mod account;
pub mod id;

pub use id::ActorId;
pub use id::ActorIdError;

use vstd::prelude::*;

verus! {

/// Longest actor name accepted, in characters.
pub const ACTOR_NAME_MAX_CHARS: usize = 50;

/// Display name of an actor, at most 50 characters long.
#[derive(Debug, Clone, Eq, Hash)]
pub struct ActorName {
    name: String,
}

/// Error reported while building an [`ActorName`].
#[derive(Debug, Clone, PartialEq, Eq)]
pub enum ActorNameError {
    TooLong,
}

impl View for ActorName {
    type V = Seq<char>;

    closed spec fn view(&self) -> Seq<char> {
        self.name@
    }
}

impl ActorName {
    /// Accept a name of at most 50 characters.
    pub fn new(name: &str) -> (r: Result<Self, ActorNameError>)
        ensures
            match r {
                Ok(n) => name@.len() <= ACTOR_NAME_MAX_CHARS && n@ == name@,
                Err(e) => e == ActorNameError::TooLong && name@.len() > ACTOR_NAME_MAX_CHARS,
            },
    {
        if name.unicode_len() > ACTOR_NAME_MAX_CHARS {
            return Err(ActorNameError::TooLong);
        }
        Ok(ActorName { name: name.to_owned() })
    }

    /// The name as a string slice.
    pub fn as_str(&self) -> (r: &str)
        ensures
            r@ == self@,
    {
        self.name.as_str()
    }

    /// Give up the wrapper and return the owned name.
    pub fn into_string(self) -> (r: String)
        ensures
            r@ == self@,
    {
        self.name
    }
}

impl PartialEq for ActorName {
    /// Names are equal when their characters are equal.
    fn eq(&self, other: &Self) -> (r: bool) {
        self.name.eq(&other.name)
    }
}

impl vstd::std_specs::cmp::PartialEqSpecImpl for ActorName {
    open spec fn obeys_eq_spec() -> bool {
        true
    }

    open spec fn eq_spec(&self, other: &Self) -> bool {
        self@ == other@
    }
}

impl Default for ActorName {
    /// The empty name.
    fn default() -> (r: Self)
        ensures
            r@ == Seq::<char>::empty(),
    {
        ActorName { name: String::new() }
    }
}

} // verus!
