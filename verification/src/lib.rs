//! An escrow contract pair for a message-passing actor system: a single
//! escrow instance that walks a buyer's payment through a three-state
//! machine, and a factory that deploys such instances, indexes them by
//! sequential identifier, and proxies authorized actions to them.
//!
//! The host environment (program deployment, inter-program calls, value
//! transfer) is an external collaborator: each handler here is the decision
//! part of one incoming message, written as a function from the current
//! state and the message's data to the next state, the reply, and the
//! requests the host is asked to perform.

use vstd::prelude::*;

pub mod escrow;
pub mod factory;
pub mod laws;

verus! {

/// Identity of an actor (a user or a resident program) in the
/// message-passing system.
pub type ActorId = u64;

/// Sequential identifier the factory assigns to each escrow instance.
pub type EscrowId = u64;

/// Reference to the code blob from which new escrow instances are
/// instantiated.
pub type CodeId = u64;

} // verus!
