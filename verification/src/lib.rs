//! The core of a small presence-and-messaging backend: who is connected,
//! what they call themselves, and the ordered ledger of what they said.
//!
//! Four entry points change the state: [`set_name`], [`send_message`],
//! [`identity_connected`] and [`identity_disconnected`]. Each runs to
//! completion on a [`Backend`], and its contract gives the state afterwards
//! as a function of the state before ([`state::State`]). The rules behind
//! them are also offered on their own, as decisions from the caller's row to
//! what is to be written, for a host that keeps its tables elsewhere.
//! What holds across calls is proved in [`laws`].

pub mod backend;
pub mod diagnostic;
pub mod directory;
pub mod error;
pub mod laws;
pub mod ledger;
pub mod model;
pub mod state;
pub mod validate;

pub use backend::{AlreadyExists, Backend};
pub use diagnostic::{Diagnostic, Level};
pub use directory::{
    decide_connect, decide_disconnect, decide_set_name, identity_connected, identity_disconnected,
    set_name, Arrival, Departure,
};
pub use error::Error;
pub use ledger::{decide_send_message, send_message, Accepted};
pub use model::{Identity, Message, ReducerContext, Timestamp, User};
pub use validate::{validate_message, validate_name};
