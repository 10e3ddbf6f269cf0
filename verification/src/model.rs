//! The rows of the two tables and the context that comes with every call.

use vstd::prelude::*;

verus! {

/// The opaque, stable identifier of a connecting principal: 32 bytes that the
/// core never interprets, only compares and stores.
#[derive(Clone, Copy, Debug, PartialEq, Eq, Hash)]
pub struct Identity {
    pub bytes: [u8; 32],
}

impl Identity {
    /// An identity made of the given bytes.
    pub fn from_byte_array(bytes: [u8; 32]) -> (id: Identity)
        ensures
            id.bytes == bytes,
    {
        Identity { bytes }
    }

    /// Whether two identities are the same principal: all 32 bytes agree.
    pub fn same(&self, other: &Identity) -> (r: bool)
        ensures
            r == (*self == *other),
    {
        let mut i: usize = 0;
        while i < 32
            invariant
                i <= 32,
                forall|j: int| 0 <= j < i ==> self.bytes[j] == other.bytes[j],
            decreases 32 - i,
        {
            if self.bytes[i] != other.bytes[i] {
                return false;
            }
            i += 1;
        }
        assert(self.bytes =~= other.bytes);
        true
    }
}

/// A point in time as the caller's context gives it: microseconds since the
/// Unix epoch. The core stores it and never recomputes it.
#[derive(Clone, Copy, Debug, PartialEq, Eq, Hash)]
pub struct Timestamp {
    pub micros_since_epoch: u64,
}

/// What accompanies every call: who is calling, and when.
#[derive(Clone, Copy, Debug, PartialEq, Eq)]
pub struct ReducerContext {
    pub sender: Identity,
    pub timestamp: Timestamp,
}

/// A row of the user table, keyed by `identity`.
#[derive(Debug, PartialEq, Eq)]
pub struct User {
    pub identity: Identity,
    pub name: Option<String>,
    pub online: bool,
}

/// A user row as a mathematical value.
pub struct UserView {
    pub identity: Identity,
    pub name: Option<Seq<char>>,
    pub online: bool,
}

impl View for User {
    type V = UserView;

    open spec fn view(&self) -> UserView {
        UserView {
            identity: self.identity,
            name: match self.name {
                Some(n) => Some(n@),
                None => None,
            },
            online: self.online,
        }
    }
}

impl UserView {
    /// The row of an identity that connects for the first time: online, not
    /// yet named.
    pub open spec fn fresh(identity: Identity) -> UserView {
        UserView { identity, name: None, online: true }
    }

    /// This row with its name replaced by `name`, everything else kept.
    pub open spec fn with_name(self, name: Seq<char>) -> UserView {
        UserView { name: Some(name), ..self }
    }

    /// This row with its presence flag set to `online`, everything else kept.
    pub open spec fn with_online(self, online: bool) -> UserView {
        UserView { online, ..self }
    }
}

impl User {
    /// The row of an identity that connects for the first time.
    pub fn fresh(identity: Identity) -> (row: User)
        ensures
            row@ == UserView::fresh(identity),
    {
        User { identity, name: None, online: true }
    }

    /// This row with its name replaced by `name`.
    pub fn with_name(self, name: String) -> (row: User)
        ensures
            row@ == self@.with_name(name@),
    {
        User { name: Some(name), ..self }
    }

    /// This row with its presence flag set to `online`.
    pub fn with_online(self, online: bool) -> (row: User)
        ensures
            row@ == self@.with_online(online),
    {
        User { online, ..self }
    }
}

impl Clone for User {
    fn clone(&self) -> (row: User)
        ensures
            row == *self,
    {
        let name = match &self.name {
            Some(n) => Some(n.clone()),
            None => None,
        };
        User { identity: self.identity, name, online: self.online }
    }
}

/// A row of the message ledger.
#[derive(Debug, PartialEq, Eq)]
pub struct Message {
    pub sender: Identity,
    pub sent: Timestamp,
    pub text: String,
}

/// A message row as a mathematical value.
pub struct MessageView {
    pub sender: Identity,
    pub sent: Timestamp,
    pub text: Seq<char>,
}

impl View for Message {
    type V = MessageView;

    open spec fn view(&self) -> MessageView {
        MessageView { sender: self.sender, sent: self.sent, text: self.text@ }
    }
}

impl Clone for Message {
    fn clone(&self) -> (row: Message)
        ensures
            row == *self,
    {
        Message { sender: self.sender, sent: self.sent, text: self.text.clone() }
    }
}

} // verus!
