//! What holds of the entry points taken together, proved over the effect
//! that each of them has on the state.

use vstd::prelude::*;
use crate::diagnostic::DiagnosticView;
use crate::error::ErrorView;
use crate::model::{Identity, MessageView, Timestamp, UserView};
use crate::state::State;

verus! {

/// One call of an entry point, as a mathematical value.
pub enum Call {
    SetName(Seq<char>),
    SendMessage(Seq<char>),
    Connect,
    Disconnect,
}

/// The state after `sender` makes `call` at time `at`.
pub open spec fn step(state: State, sender: Identity, at: Timestamp, call: Call) -> State {
    match call {
        Call::SetName(name) => state.set_name(sender, name),
        Call::SendMessage(text) => state.send_message(sender, at, text),
        Call::Connect => state.connect(sender),
        Call::Disconnect => state.disconnect(sender),
    }
}

/// An empty name and an empty message text are refused as invalid arguments,
/// and the refused call leaves the state exactly as it was.
pub proof fn empty_input_is_rejected_without_effect(
    state: State,
    sender: Identity,
    at: Timestamp,
    input: Seq<char>,
)
    requires
        input.len() == 0,
    ensures
        state.set_name_result(sender, input) == Err::<(), ErrorView>(ErrorView::empty_name()),
        state.set_name_result(sender, input) matches Err(ErrorView::InvalidArgument(_)),
        state.set_name(sender, input) == state,
        State::send_message_result(input) == Err::<(), ErrorView>(ErrorView::empty_message()),
        State::send_message_result(input) matches Err(ErrorView::InvalidArgument(_)),
        state.send_message(sender, at, input) == state,
{
}

/// Setting a non-empty name for an identity that has a row succeeds; the row
/// keeps its identity and presence and gets exactly that name, and nothing
/// else in the state changes.
pub proof fn set_name_replaces_only_the_name(state: State, sender: Identity, name: Seq<char>)
    requires
        name.len() > 0,
        state.users.contains_key(sender),
    ensures
        state.set_name_result(sender, name) == Ok::<(), ErrorView>(()),
        state.set_name(sender, name).users.contains_key(sender),
        state.set_name(sender, name).users[sender].identity == state.users[sender].identity,
        state.set_name(sender, name).users[sender].online == state.users[sender].online,
        state.set_name(sender, name).users[sender].name == Some(name),
        state.set_name(sender, name).users.dom() == state.users.dom(),
        forall|other: Identity|
            other != sender ==> #[trigger] state.set_name(sender, name).users[other]
                == state.users[other],
        state.set_name(sender, name).messages == state.messages,
        state.set_name(sender, name).diagnostics == state.diagnostics,
{
    assert(state.set_name(sender, name).users.dom() =~= state.users.dom());
}

/// Setting a non-empty name for an identity that has no row fails as not
/// found and leaves the state exactly as it was.
pub proof fn set_name_without_row_is_not_found(state: State, sender: Identity, name: Seq<char>)
    requires
        name.len() > 0,
        !state.users.contains_key(sender),
    ensures
        state.set_name_result(sender, name) == Err::<(), ErrorView>(ErrorView::unknown_user()),
        state.set_name_result(sender, name) matches Err(ErrorView::NotFound(_)),
        state.set_name(sender, name) == state,
{
}

/// Sending a non-empty text succeeds and appends exactly one row, which holds
/// the sender, the timestamp and the text as given and stands last; the rows
/// before it are the ledger as it was, in the same order, and the user table
/// is untouched. Whether the sender has a row plays no part.
pub proof fn send_message_appends_one_row(
    state: State,
    sender: Identity,
    at: Timestamp,
    text: Seq<char>,
)
    requires
        text.len() > 0,
    ensures
        State::send_message_result(text) == Ok::<(), ErrorView>(()),
        state.send_message(sender, at, text).messages.len() == state.messages.len() + 1,
        state.send_message(sender, at, text).messages.last() == (MessageView {
            sender,
            sent: at,
            text,
        }),
        state.send_message(sender, at, text).messages.drop_last() == state.messages,
        state.send_message(sender, at, text).users == state.users,
        state.send_message(sender, at, text).diagnostics == state.diagnostics.push(
            DiagnosticView::MessageAccepted(text),
        ),
{
    assert(state.send_message(sender, at, text).messages.drop_last() =~= state.messages);
}

/// A connect of an identity without a row creates its row: online, without a
/// name. A connect of an identity with a row keeps the row's identity and
/// name and sets it online, whatever it was before. No other row, no message
/// and no diagnostic changes.
pub proof fn connect_sets_online(state: State, sender: Identity)
    ensures
        state.connect(sender).users.dom() == state.users.dom().insert(sender),
        !state.users.contains_key(sender) ==> state.connect(sender).users[sender] == (UserView {
            identity: sender,
            name: None,
            online: true,
        }),
        state.users.contains_key(sender) ==> state.connect(sender).users[sender] == (UserView {
            identity: state.users[sender].identity,
            name: state.users[sender].name,
            online: true,
        }),
        forall|other: Identity|
            other != sender ==> #[trigger] state.connect(sender).users[other] == state.users[other],
        state.connect(sender).messages == state.messages,
        state.connect(sender).diagnostics == state.diagnostics,
{
    assert(state.connect(sender).users.dom() =~= state.users.dom().insert(sender));
}

/// A disconnect of an identity with a row keeps the row's identity and name
/// and sets it offline. A disconnect of an identity without a row changes
/// neither table; it only adds a warning to the diagnostics.
pub proof fn disconnect_sets_offline(state: State, sender: Identity)
    ensures
        state.users.contains_key(sender) ==> state.disconnect(sender).users[sender] == (UserView {
            identity: state.users[sender].identity,
            name: state.users[sender].name,
            online: false,
        }),
        state.users.contains_key(sender) ==> state.disconnect(sender).diagnostics
            == state.diagnostics,
        !state.users.contains_key(sender) ==> state.disconnect(sender).users == state.users,
        !state.users.contains_key(sender) ==> state.disconnect(sender).diagnostics
            == state.diagnostics.push(DiagnosticView::UnknownDisconnect(sender)),
        state.disconnect(sender).users.dom() == state.users.dom(),
        forall|other: Identity|
            other != sender ==> #[trigger] state.disconnect(sender).users[other]
                == state.users[other],
        state.disconnect(sender).messages == state.messages,
{
    assert(state.disconnect(sender).users.dom() =~= state.users.dom());
}

/// Connecting twice in a row gives the same state as connecting once.
pub proof fn connect_is_idempotent(state: State, sender: Identity)
    ensures
        state.connect(sender).connect(sender) == state.connect(sender),
{
    assert(state.connect(sender).connect(sender).users =~= state.connect(sender).users);
}

/// Disconnecting a known identity twice in a row gives the same state as
/// disconnecting it once.
pub proof fn disconnect_is_idempotent(state: State, sender: Identity)
    requires
        state.users.contains_key(sender),
    ensures
        state.disconnect(sender).disconnect(sender) == state.disconnect(sender),
{
    assert(state.disconnect(sender).disconnect(sender).users =~= state.disconnect(sender).users);
}

/// No call removes a row from the user table, moves a row to another
/// identity, or clears a name that was set.
pub proof fn rows_persist(state: State, sender: Identity, at: Timestamp, call: Call, id: Identity)
    requires
        state.users.contains_key(id),
    ensures
        step(state, sender, at, call).users.contains_key(id),
        step(state, sender, at, call).users[id].identity == state.users[id].identity,
        state.users[id].name is Some ==> step(state, sender, at, call).users[id].name is Some,
{
}

/// A row enters the user table only by a connect of its own identity.
pub proof fn rows_come_from_connect(
    state: State,
    sender: Identity,
    at: Timestamp,
    call: Call,
    id: Identity,
)
    requires
        !state.users.contains_key(id),
        step(state, sender, at, call).users.contains_key(id),
    ensures
        call is Connect,
        id == sender,
        step(state, sender, at, call).users[id] == UserView::fresh(id),
{
}

/// If every row of the user table sits under its own identity, it still does
/// after any call.
pub proof fn keys_stay_identities(state: State, sender: Identity, at: Timestamp, call: Call)
    requires
        state.keyed_by_identity(),
    ensures
        step(state, sender, at, call).keyed_by_identity(),
{
    let after = step(state, sender, at, call);
    assert forall|id: Identity| #[trigger] after.users.contains_key(id) implies after.users[id].identity
        == id by {
        if id != sender {
            assert(state.users.contains_key(id));
        } else if state.users.contains_key(id) {
        }
    }
}

/// The ledger only grows at its end: after any call the rows that were there
/// are still there, unchanged and in the same places, and at most one row has
/// been added, by a message that was accepted.
pub proof fn ledger_is_append_only(state: State, sender: Identity, at: Timestamp, call: Call)
    ensures
        state.messages.is_prefix_of(step(state, sender, at, call).messages),
        step(state, sender, at, call).messages.len() <= state.messages.len() + 1,
        step(state, sender, at, call).messages.len() == state.messages.len() + 1 ==> call is SendMessage
            && call->SendMessage_0.len() > 0,
{
    let after = step(state, sender, at, call);
    assert(state.messages =~= after.messages.subrange(0, state.messages.len() as int));
}

/// If no message of the ledger has an empty text, none has after any call.
pub proof fn texts_stay_non_empty(state: State, sender: Identity, at: Timestamp, call: Call)
    requires
        state.texts_non_empty(),
    ensures
        step(state, sender, at, call).texts_non_empty(),
{
    let after = step(state, sender, at, call);
    assert forall|i: int| 0 <= i < after.messages.len() implies (#[trigger] after.messages[i]).text.len()
        > 0 by {
        if i < state.messages.len() {
            assert(after.messages[i] == state.messages[i]);
        }
    }
}

} // verus!
