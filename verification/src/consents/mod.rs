//! Consent state machine.
//!
//! A [`Consent`](crate::model::nodes::Consent) walks the six-state
//! lifecycle: `Requested` is entered at mint time; `acknowledge`,
//! `decline`, `mark_timed_out` and `mark_expired` leave it; `revoke` and
//! `mark_expired` leave `Acknowledged`; the other four states are terminal.
//!
//! - [`state`] — the terminal predicate and the legal-transition table.
//! - [`transitions`] — the five pure transition functions.
//! - [`minters`] — constructors for freshly requested consents.

pub mod minters;
pub mod state;
pub mod transitions;

pub use state::{is_terminal, legal_transition};
pub use transitions::{
    acknowledge, decline, mark_expired, mark_timed_out, revoke, ConsentTransitionError,
};
