//! What the core reports to whoever watches it. A diagnostic is a value: the
//! core names what happened, and its host decides how to record it.

use vstd::prelude::*;
use crate::model::Identity;

verus! {

/// How much attention a diagnostic asks for.
#[derive(Clone, Copy, Debug, PartialEq, Eq)]
pub enum Level {
    Info,
    Warning,
}

/// A record for the observability sink. Emitting one never changes whether a
/// call succeeds.
#[derive(Debug, PartialEq, Eq)]
pub enum Diagnostic {
    /// A message was accepted into the ledger; carries its text.
    MessageAccepted(String),
    /// A disconnect arrived for an identity that has no row.
    UnknownDisconnect(Identity),
}

/// A diagnostic as a mathematical value.
pub enum DiagnosticView {
    MessageAccepted(Seq<char>),
    UnknownDisconnect(Identity),
}

impl View for Diagnostic {
    type V = DiagnosticView;

    open spec fn view(&self) -> DiagnosticView {
        match self {
            Diagnostic::MessageAccepted(text) => DiagnosticView::MessageAccepted(text@),
            Diagnostic::UnknownDisconnect(identity) => DiagnosticView::UnknownDisconnect(*identity),
        }
    }
}

impl DiagnosticView {
    /// Accepted messages are reported for information; a disconnect without a
    /// row is an anomaly and reported as a warning.
    pub open spec fn level(self) -> Level {
        match self {
            DiagnosticView::MessageAccepted(_) => Level::Info,
            DiagnosticView::UnknownDisconnect(_) => Level::Warning,
        }
    }
}

impl Diagnostic {
    /// The level at which this diagnostic is to be recorded.
    pub fn level(&self) -> (level: Level)
        ensures
            level == self@.level(),
    {
        match self {
            Diagnostic::MessageAccepted(_) => Level::Info,
            Diagnostic::UnknownDisconnect(_) => Level::Warning,
        }
    }
}

impl Clone for Diagnostic {
    fn clone(&self) -> (d: Diagnostic)
        ensures
            d == *self,
    {
        match self {
            Diagnostic::MessageAccepted(text) => Diagnostic::MessageAccepted(text.clone()),
            Diagnostic::UnknownDisconnect(identity) => Diagnostic::UnknownDisconnect(*identity),
        }
    }
}

} // verus!
