//! The sequence state of one node of a leader-driven replicated log.
//!
//! A node keeps three counters: the election term it knows, the index of the
//! last entry it has appended to its log and the index of the last entry it has
//! committed. [`state::State`] holds them and decides whether an append, a
//! commit or a change of term is legal; it never moves a counter that the
//! rules do not allow to move. [`model`] is the mathematical description that
//! the contracts of [`state`] are written against, together with what is
//! proved of it. [`store`] reads the answers of the durable key/value store
//! in which a node keeps its log.

pub mod model;
pub mod state;
pub mod store;
