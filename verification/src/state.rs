//! The state that the core acts on, as a mathematical value, and the effect
//! of each entry point on it.

use vstd::prelude::*;
use crate::diagnostic::DiagnosticView;
use crate::error::ErrorView;
use crate::model::{Identity, MessageView, Timestamp, UserView};

verus! {

/// Everything the core's collaborators hold: the user table keyed by
/// identity, the message ledger in insertion order, and the diagnostics
/// emitted so far, oldest first.
pub struct State {
    pub users: Map<Identity, UserView>,
    pub messages: Seq<MessageView>,
    pub diagnostics: Seq<DiagnosticView>,
}

impl State {
    /// Nothing stored, nothing reported.
    pub open spec fn empty() -> State {
        State { users: Map::empty(), messages: Seq::empty(), diagnostics: Seq::empty() }
    }

    /// Every row of the user table sits under its own identity.
    pub open spec fn keyed_by_identity(self) -> bool {
        forall|id: Identity| #[trigger]
            self.users.contains_key(id) ==> self.users[id].identity == id
    }

    /// No message of the ledger has an empty text.
    pub open spec fn texts_non_empty(self) -> bool {
        forall|i: int| 0 <= i < self.messages.len() ==> (#[trigger] self.messages[i]).text.len() > 0
    }

    /// The state after `sender` asks to be called `name`: the caller's row
    /// with the new name, if the name is not empty and the row exists;
    /// otherwise the same state.
    pub open spec fn set_name(self, sender: Identity, name: Seq<char>) -> State {
        if name.len() > 0 && self.users.contains_key(sender) {
            State { users: self.users.insert(sender, self.users[sender].with_name(name)), ..self }
        } else {
            self
        }
    }

    /// What `sender` is told when it asks to be called `name`: an empty name
    /// is refused first, then a caller without a row.
    pub open spec fn set_name_result(self, sender: Identity, name: Seq<char>) -> Result<
        (),
        ErrorView,
    > {
        if name.len() == 0 {
            Err(ErrorView::empty_name())
        } else if !self.users.contains_key(sender) {
            Err(ErrorView::unknown_user())
        } else {
            Ok(())
        }
    }

    /// What a caller is told when it sends `text`: only an empty text is
    /// refused, whoever sends it and whatever the tables hold.
    pub open spec fn send_message_result(text: Seq<char>) -> Result<(), ErrorView> {
        if text.len() == 0 {
            Err(ErrorView::empty_message())
        } else {
            Ok(())
        }
    }

    /// The state after `sender` sends `text` at time `sent`: one more row at
    /// the end of the ledger and one more diagnostic, if the text is not
    /// empty; otherwise the same state.
    pub open spec fn send_message(self, sender: Identity, sent: Timestamp, text: Seq<char>) -> State {
        if text.len() > 0 {
            State {
                messages: self.messages.push(MessageView { sender, sent, text }),
                diagnostics: self.diagnostics.push(DiagnosticView::MessageAccepted(text)),
                ..self
            }
        } else {
            self
        }
    }

    /// The state after `sender` connects: its row set online with the name
    /// kept, or a fresh row if it had none.
    pub open spec fn connect(self, sender: Identity) -> State {
        let row = if self.users.contains_key(sender) {
            self.users[sender].with_online(true)
        } else {
            UserView::fresh(sender)
        };
        State { users: self.users.insert(sender, row), ..self }
    }

    /// The state after `sender` disconnects: its row set offline with the
    /// name kept; if it has no row, both tables stay as they are and a
    /// warning is reported.
    pub open spec fn disconnect(self, sender: Identity) -> State {
        if self.users.contains_key(sender) {
            State { users: self.users.insert(sender, self.users[sender].with_online(false)), ..self }
        } else {
            State {
                diagnostics: self.diagnostics.push(DiagnosticView::UnknownDisconnect(sender)),
                ..self
            }
        }
    }
}

} // verus!
