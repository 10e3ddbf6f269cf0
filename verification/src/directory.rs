//! The identity directory: who has a row in the user table, under which name,
//! and whether they are connected right now.
//!
//! Each entry point comes in two forms. The decision (`decide_*`) takes the
//! snapshot of the caller's row and says what to write; it touches no table
//! and suits a host that keeps the tables elsewhere. The entry point itself
//! reads the snapshot from a [`Backend`], decides, and writes.

use vstd::prelude::*;
use crate::backend::Backend;
use crate::diagnostic::{Diagnostic, DiagnosticView};
use crate::error::{outcome, Error, ErrorView};
use crate::model::{Identity, ReducerContext, User, UserView};
use crate::state::State;
use crate::validate::validate_name;

verus! {

/// What a connect asks of the user table.
#[derive(Debug, PartialEq, Eq)]
pub enum Arrival {
    /// The identity was never seen: its first row is to be inserted.
    Insert(User),
    /// The identity has a row: this one is to take its place.
    Replace(User),
}

/// What a disconnect asks of its host.
#[derive(Debug, PartialEq, Eq)]
pub enum Departure {
    /// The identity has a row: this one is to take its place.
    Replace(User),
    /// The identity has no row: nothing is to be written, and the anomaly is
    /// to be reported.
    Report(Diagnostic),
}

/// Decides a request to be called `name`, given the caller's row as the user
/// table holds it. An empty name is refused first; then a caller without a
/// row; otherwise the answer is the row that is to replace the caller's: the
/// same identity and presence, and exactly the given name.
pub fn decide_set_name(row: Option<User>, name: String) -> (r: Result<User, Error>)
    ensures
        name@.len() == 0 ==> r is Err && r->Err_0@ == ErrorView::empty_name(),
        name@.len() > 0 && row is None ==> r is Err && r->Err_0@ == ErrorView::unknown_user(),
        name@.len() > 0 && row is Some ==> r is Ok && r->Ok_0@ == row->Some_0@.with_name(name@),
{
    match validate_name(name) {
        Err(e) => Err(e),
        Ok(name) => match row {
            Some(user) => Ok(user.with_name(name)),
            None => Err(Error::unknown_user()),
        },
    }
}

/// Decides a connect of `sender`, given its row as the user table holds it.
/// A returning identity keeps its row, set online; a new one gets a fresh
/// row, online and without a name.
pub fn decide_connect(sender: Identity, row: Option<User>) -> (arrival: Arrival)
    ensures
        match row {
            Some(user) => arrival matches Arrival::Replace(next) && next@ == user@.with_online(true),
            None => arrival matches Arrival::Insert(next) && next@ == UserView::fresh(sender),
        },
{
    match row {
        Some(user) => Arrival::Replace(user.with_online(true)),
        None => Arrival::Insert(User::fresh(sender)),
    }
}

/// Decides a disconnect of `sender`, given its row as the user table holds
/// it. A known identity keeps its row, set offline; for an unknown one
/// nothing is written and a warning names it.
pub fn decide_disconnect(sender: Identity, row: Option<User>) -> (departure: Departure)
    ensures
        match row {
            Some(user) => departure matches Departure::Replace(next) && next@ == user@.with_online(
                false,
            ),
            None => departure matches Departure::Report(diagnostic) && diagnostic@
                == DiagnosticView::UnknownDisconnect(sender),
        },
{
    match row {
        Some(user) => Departure::Replace(user.with_online(false)),
        None => Departure::Report(Diagnostic::UnknownDisconnect(sender)),
    }
}

/// Sets the caller's display name.
///
/// Fails with `InvalidArgument("empty name")` if `name` is empty, else with
/// `NotFound("unknown user")` if the caller has no row; a failed call changes
/// nothing. Otherwise the caller's row keeps its identity and presence and
/// gets exactly `name`; no other row, no message and no diagnostic changes.
pub fn set_name(backend: &mut Backend, ctx: ReducerContext, name: String) -> (r: Result<(), Error>)
    requires
        old(backend).wf(),
    ensures
        final(backend).wf(),
        final(backend)@ == old(backend)@.set_name(ctx.sender, name@),
        outcome(r) == old(backend)@.set_name_result(ctx.sender, name@),
        r is Ok <==> name@.len() > 0 && old(backend)@.users.contains_key(ctx.sender),
        name@.len() == 0 ==> r is Err && r->Err_0@ == ErrorView::empty_name(),
        name@.len() > 0 && !old(backend)@.users.contains_key(ctx.sender) ==> r is Err && r->Err_0@
            == ErrorView::unknown_user(),
        r is Err ==> final(backend)@ == old(backend)@,
        r is Ok ==> final(backend)@ == (State {
            users: old(backend)@.users.insert(
                ctx.sender,
                (UserView {
                    identity: ctx.sender,
                    name: Some(name@),
                    online: old(backend)@.users[ctx.sender].online,
                }),
            ),
            ..old(backend)@
        }),
{
    proof {
        backend.lemma_keyed_by_identity();
    }
    let row = backend.get_user(&ctx.sender);
    match decide_set_name(row, name) {
        Ok(next) => {
            let replaced = backend.replace_user(&ctx.sender, next);
            assert(replaced);
            Ok(())
        },
        Err(e) => Err(e),
    }
}

/// Records that the caller has connected.
///
/// A caller with a row is set online, whatever it was before, and keeps its
/// identity and name. A caller without one gets its first row: online, no
/// name. The call cannot fail, and changes no other row, no message and no
/// diagnostic.
pub fn identity_connected(backend: &mut Backend, ctx: ReducerContext)
    requires
        old(backend).wf(),
    ensures
        final(backend).wf(),
        final(backend)@ == old(backend)@.connect(ctx.sender),
        final(backend)@.users.dom() == old(backend)@.users.dom().insert(ctx.sender),
        final(backend)@.users[ctx.sender] == (UserView {
            identity: ctx.sender,
            name: if old(backend)@.users.contains_key(ctx.sender) {
                old(backend)@.users[ctx.sender].name
            } else {
                None
            },
            online: true,
        }),
        forall|other: Identity|
            other != ctx.sender && old(backend)@.users.contains_key(other)
                ==> #[trigger] final(backend)@.users[other] == old(backend)@.users[other],
        final(backend)@.messages == old(backend)@.messages,
        final(backend)@.diagnostics == old(backend)@.diagnostics,
{
    proof {
        backend.lemma_keyed_by_identity();
    }
    let row = backend.get_user(&ctx.sender);
    match decide_connect(ctx.sender, row) {
        Arrival::Replace(next) => {
            let replaced = backend.replace_user(&ctx.sender, next);
            assert(replaced);
        },
        Arrival::Insert(next) => {
            // The row was just seen to be absent, so the insert cannot collide.
            let inserted = backend.insert_user(next);
            assert(inserted is Ok);
        },
    }
}

/// Records that the caller has disconnected.
///
/// A caller with a row is set offline and keeps its identity and name. For a
/// caller without one, which a correct host never produces, both tables stay
/// as they are and a warning naming the caller goes to the sink. The call
/// cannot fail.
pub fn identity_disconnected(backend: &mut Backend, ctx: ReducerContext)
    requires
        old(backend).wf(),
    ensures
        final(backend).wf(),
        final(backend)@ == old(backend)@.disconnect(ctx.sender),
        final(backend)@.messages == old(backend)@.messages,
        old(backend)@.users.contains_key(ctx.sender) ==> final(backend)@.users
            == old(backend)@.users.insert(
            ctx.sender,
            (UserView {
                identity: ctx.sender,
                name: old(backend)@.users[ctx.sender].name,
                online: false,
            }),
        ),
        old(backend)@.users.contains_key(ctx.sender) ==> final(backend)@.diagnostics
            == old(backend)@.diagnostics,
        !old(backend)@.users.contains_key(ctx.sender) ==> final(backend)@.users
            == old(backend)@.users,
        !old(backend)@.users.contains_key(ctx.sender) ==> final(backend)@.diagnostics
            == old(backend)@.diagnostics.push(DiagnosticView::UnknownDisconnect(ctx.sender)),
{
    proof {
        backend.lemma_keyed_by_identity();
    }
    let row = backend.get_user(&ctx.sender);
    match decide_disconnect(ctx.sender, row) {
        Departure::Replace(next) => {
            let replaced = backend.replace_user(&ctx.sender, next);
            assert(replaced);
        },
        Departure::Report(diagnostic) => {
            backend.emit(diagnostic);
        },
    }
}

} // verus!
