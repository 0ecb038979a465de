//! Invite-gated signup and sequential unlocking of an ordered chain of
//! content items, with every rule stated as a contract and proved.

pub mod chain;
pub mod error;
pub mod gate;
pub mod ident;
pub mod progress;
pub mod session;
pub mod text;
pub mod unlock;
