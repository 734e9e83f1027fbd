//! A proof-of-existence claim registry.
//!
//! A claim is an arbitrary byte string registered by exactly one owner at a
//! time. The registry maps each active claim to its owner and to the height
//! at which it was first registered. Three transitions act on it: `create`
//! (register an absent claim), `remove` (the owner releases it) and
//! `transact` (the owner hands it to another account, keeping the height).
//! Every transition validates first and mutates at most once; a failed one
//! leaves the registry untouched.

pub mod types;
pub mod store;
pub mod transition;
pub mod module;
pub mod laws;
