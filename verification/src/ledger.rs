//! The message ledger: an append-only record of what was said, by whom and
//! when, in the order in which it was accepted.

use vstd::prelude::*;
use crate::backend::Backend;
use crate::diagnostic::{Diagnostic, DiagnosticView};
use crate::error::{outcome, Error, ErrorView};
use crate::model::{Message, MessageView, ReducerContext};
use crate::state::State;
use crate::validate::validate_message;

verus! {

/// What an accepted message asks of its host: a row to append to the ledger
/// and a record for the sink.
#[derive(Debug, PartialEq, Eq)]
pub struct Accepted {
    pub row: Message,
    pub diagnostic: Diagnostic,
}

/// Decides a request to send `text`. An empty text is refused. Any other is
/// accepted as it is: the row carries the caller as sender, the call's
/// timestamp and exactly the text, and the diagnostic reports the text.
/// Whether the caller has a row in the user table plays no part.
pub fn decide_send_message(ctx: ReducerContext, text: String) -> (r: Result<Accepted, Error>)
    ensures
        text@.len() == 0 ==> r is Err && r->Err_0@ == ErrorView::empty_message(),
        text@.len() > 0 ==> r is Ok && r->Ok_0.row@ == (MessageView {
            sender: ctx.sender,
            sent: ctx.timestamp,
            text: text@,
        }) && r->Ok_0.diagnostic@ == DiagnosticView::MessageAccepted(text@),
{
    match validate_message(text) {
        Err(e) => Err(e),
        Ok(text) => {
            let diagnostic = Diagnostic::MessageAccepted(text.clone());
            let row = Message { sender: ctx.sender, sent: ctx.timestamp, text };
            Ok(Accepted { row, diagnostic })
        },
    }
}

/// Appends a message from the caller to the ledger.
///
/// Fails with `InvalidArgument("empty message")` if `text` is empty, and then
/// changes nothing. Otherwise exactly one row is appended: the caller as
/// sender, the call's timestamp, and `text` as given. It becomes the last row;
/// the rows before it and the user table stay as they are, and the accepted
/// text is reported to the sink. The caller need not have a row in the user
/// table.
pub fn send_message(backend: &mut Backend, ctx: ReducerContext, text: String) -> (r: Result<
    (),
    Error,
>)
    ensures
        final(backend).wf() == old(backend).wf(),
        final(backend)@ == old(backend)@.send_message(ctx.sender, ctx.timestamp, text@),
        outcome(r) == State::send_message_result(text@),
        r is Ok <==> text@.len() > 0,
        r is Err ==> r->Err_0@ == ErrorView::empty_message(),
        r is Err ==> final(backend)@ == old(backend)@,
        r is Ok ==> final(backend)@ == (State {
            users: old(backend)@.users,
            messages: old(backend)@.messages.push(
                (MessageView { sender: ctx.sender, sent: ctx.timestamp, text: text@ }),
            ),
            diagnostics: old(backend)@.diagnostics.push(DiagnosticView::MessageAccepted(text@)),
        }),
{
    match decide_send_message(ctx, text) {
        Ok(accepted) => {
            backend.emit(accepted.diagnostic);
            backend.insert_message(accepted.row);
            Ok(())
        },
        Err(e) => Err(e),
    }
}

} // verus!
