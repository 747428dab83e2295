//! The escrow factory: a registry of deployed escrow instances and a thin
//! asynchronous proxy in front of them.
//!
//! The factory owns no escrow business state, only addressing: a monotonic
//! counter and a map from sequential identifier to instance address. Its
//! handlers suspend at exactly two points, the deployment request of
//! `create_escrow` and the forwarded call of the two proxy operations.
//! Each handler is therefore split at its suspension point: the part before
//! it builds the request the host is asked to perform, and the part after
//! it takes the host's outcome and decides the reply and the state change.

use std::collections::BTreeMap;

use vstd::prelude::*;

use crate::escrow::{EscrowAction, EscrowError, EscrowEvent, InitEscrow};
use crate::{ActorId, CodeId, EscrowId};

verus! {

broadcast use vstd::std_specs::btree::group_btree_axioms, vstd::laws_cmp::group_laws_cmp;

/// Gas allowance attached to each deployment of a new escrow instance.
pub const GAS_FOR_CREATION: u64 = 2_500_000_000;

/// A deployment request handed to the host: instantiate a new escrow
/// instance from `code_id` with `init` as its init payload.
#[derive(Clone, Copy, Debug, PartialEq, Eq, Structural)]
pub struct DeployRequest {
    pub code_id: CodeId,
    pub init: InitEscrow,
    pub gas: u64,
    pub value: u128,
}

/// Why a deployment failed; the factory treats every cause alike.
#[derive(Clone, Copy, Debug, PartialEq, Eq, Structural)]
pub enum DeployError {
    InsufficientGas,
    CodeError,
    InitFailed,
}

/// Why a forwarded call failed: the target rejected the action, or the
/// request never completed at the transport or gas level.
#[derive(Clone, Copy, Debug, PartialEq, Eq, Structural)]
pub enum CallError {
    Rejected(EscrowError),
    Transport,
}

/// One forwarded call the host is asked to make to an escrow instance,
/// carrying the original caller's identity and attached value.
#[derive(Clone, Copy, Debug, PartialEq, Eq, Structural)]
pub struct ProxyCall {
    pub target: ActorId,
    pub action: EscrowAction,
    pub value: u128,
}

/// Why a factory handler failed. Downstream failures are propagated; the
/// factory adds only the lookup failure of its own registry.
#[derive(Clone, Copy, Debug, PartialEq, Eq, Structural)]
pub enum FactoryError {
    NoSuchEscrow,
    DeploymentFailed(DeployError),
    CallFailed(CallError),
}

/// An incoming request to the factory.
#[derive(Clone, Copy, Debug, PartialEq, Eq, Structural)]
pub enum FactoryAction {
    CreateEscrow { seller: ActorId, buyer: ActorId, price: u128 },
    Deposit(EscrowId),
    ConfirmDelivery(EscrowId),
}

/// A reply the factory sends to its caller.
#[derive(Clone, Copy, Debug, PartialEq, Eq, Structural)]
pub enum FactoryEvent {
    EscrowCreated { escrow_id: EscrowId, escrow_address: ActorId },
    Deposited(EscrowId),
    DeliveryConfirmed(EscrowId),
}

/// The factory's registry of deployed escrow instances.
#[derive(Debug)]
pub struct EscrowFactory {
    pub escrow_count: EscrowId,
    pub id_to_address: BTreeMap<EscrowId, ActorId>,
    pub escrow_code_id: CodeId,
}

/// The factory's state as mathematics: the counter, the registry as a map,
/// and the code reference.
pub struct FactoryView {
    pub escrow_count: EscrowId,
    pub registry: Map<EscrowId, ActorId>,
    pub escrow_code_id: CodeId,
}

impl View for EscrowFactory {
    type V = FactoryView;

    open spec fn view(&self) -> FactoryView {
        FactoryView {
            escrow_count: self.escrow_count,
            registry: self.id_to_address@,
            escrow_code_id: self.escrow_code_id,
        }
    }
}

impl FactoryView {
    /// Identifiers are assigned by incrementing the counter, never reused
    /// and never gap-filled: the registered identifiers are exactly
    /// `1 ..= escrow_count`.
    pub open spec fn wf(self) -> bool {
        forall|id: EscrowId| #[trigger]
            self.registry.contains_key(id) <==> 1 <= id <= self.escrow_count
    }
}

/// The counter after one more escrow: incremented, saturating at the
/// largest representable value rather than wrapping.
pub open spec fn next_count(count: EscrowId) -> EscrowId {
    if count == EscrowId::MAX {
        count
    } else {
        (count + 1) as EscrowId
    }
}

/// The factory after recording one successfully deployed instance at
/// `address`.
pub open spec fn create_commit_next(v: FactoryView, address: ActorId) -> FactoryView {
    FactoryView {
        escrow_count: next_count(v.escrow_count),
        registry: v.registry.insert(next_count(v.escrow_count), address),
        ..v
    }
}

/// The forwarded call the factory makes for `Deposit(escrow_id)` on behalf
/// of `source` with `value` attached, or the lookup failure.
pub open spec fn deposit_call_spec(
    v: FactoryView,
    escrow_id: EscrowId,
    source: ActorId,
    value: u128,
) -> Result<ProxyCall, FactoryError> {
    if v.registry.contains_key(escrow_id) {
        Ok(
            ProxyCall {
                target: v.registry[escrow_id],
                action: EscrowAction::Deposit(source),
                value,
            },
        )
    } else {
        Err(FactoryError::NoSuchEscrow)
    }
}

/// The forwarded call the factory makes for `ConfirmDelivery(escrow_id)`
/// on behalf of `source` with `value` attached, or the lookup failure.
pub open spec fn confirm_call_spec(
    v: FactoryView,
    escrow_id: EscrowId,
    source: ActorId,
    value: u128,
) -> Result<ProxyCall, FactoryError> {
    if v.registry.contains_key(escrow_id) {
        Ok(
            ProxyCall {
                target: v.registry[escrow_id],
                action: EscrowAction::ConfirmDelivery(source),
                value,
            },
        )
    } else {
        Err(FactoryError::NoSuchEscrow)
    }
}

/// The factory's reply once the instance's answer to a forwarded deposit
/// arrives: its own event only after the instance confirmed, the propagated
/// failure otherwise.
pub open spec fn deposit_reply_spec(
    escrow_id: EscrowId,
    reply: Result<EscrowEvent, CallError>,
) -> Result<FactoryEvent, FactoryError> {
    match reply {
        Ok(_) => Ok(FactoryEvent::Deposited(escrow_id)),
        Err(why) => Err(FactoryError::CallFailed(why)),
    }
}

/// The factory's reply once the instance's answer to a forwarded delivery
/// confirmation arrives.
pub open spec fn confirm_reply_spec(
    escrow_id: EscrowId,
    reply: Result<EscrowEvent, CallError>,
) -> Result<FactoryEvent, FactoryError> {
    match reply {
        Ok(_) => Ok(FactoryEvent::DeliveryConfirmed(escrow_id)),
        Err(why) => Err(FactoryError::CallFailed(why)),
    }
}

impl EscrowFactory {
    /// Handles the factory's one-time init message: an empty registry, the
    /// counter at zero, and the code reference fixed for all later
    /// deployments.
    pub fn init(escrow_code_id: CodeId) -> (f: EscrowFactory)
        ensures
            f@.escrow_count == 0,
            f@.registry == Map::<EscrowId, ActorId>::empty(),
            f@.escrow_code_id == escrow_code_id,
            f@.wf(),
    {
        let f = EscrowFactory { escrow_count: 0, id_to_address: BTreeMap::new(), escrow_code_id };
        proof {
            assert forall|id: EscrowId| #[trigger]
                f@.registry.contains_key(id) <==> 1 <= id <= f@.escrow_count by {
                assert(!Map::<EscrowId, ActorId>::empty().contains_key(id));
            }
        }
        f
    }

    /// The first half of `create_escrow`, up to its suspension point: the
    /// deployment request for a new instance with the given parties and
    /// price. Any identity may request a new escrow; authorization is
    /// delegated to the deployed instance's own fields.
    pub fn create_escrow_request(&self, seller: ActorId, buyer: ActorId, price: u128) -> (r:
        DeployRequest)
        ensures
            r == (DeployRequest {
                code_id: self@.escrow_code_id,
                init: InitEscrow { seller, buyer, price },
                gas: GAS_FOR_CREATION,
                value: 0,
            }),
    {
        DeployRequest {
            code_id: self.escrow_code_id,
            init: InitEscrow { seller, buyer, price },
            gas: GAS_FOR_CREATION,
            value: 0,
        }
    }

    /// The second half of `create_escrow`: the deployment's outcome decides
    /// everything. On failure the whole call aborts and no registry entry
    /// is made. On success the counter is incremented (saturating), the new
    /// identifier is bound to the new instance's address, and the caller is
    /// told both.
    pub fn create_escrow_commit(&mut self, deployed: Result<ActorId, DeployError>) -> (r: Result<
        FactoryEvent,
        FactoryError,
    >)
        requires
            old(self)@.wf(),
        ensures
            final(self)@.wf(),
            match deployed {
                Ok(address) => final(self)@ == create_commit_next(old(self)@, address) && r
                    == Ok::<FactoryEvent, FactoryError>(
                    FactoryEvent::EscrowCreated {
                        escrow_id: next_count(old(self)@.escrow_count),
                        escrow_address: address,
                    },
                ),
                Err(why) => final(self)@ == old(self)@ && r == Err::<FactoryEvent, FactoryError>(
                    FactoryError::DeploymentFailed(why),
                ),
            },
    {
        match deployed {
            Ok(address) => {
                self.escrow_count = self.escrow_count.saturating_add(1);
                self.id_to_address.insert(self.escrow_count, address);
                proof {
                    assert forall|id: EscrowId| #[trigger]
                        self@.registry.contains_key(id) <==> 1 <= id <= self@.escrow_count by {
                        assert(old(self)@.registry.contains_key(id) <==> 1 <= id <= old(
                            self,
                        )@.escrow_count);
                        assert(self@.registry == old(self)@.registry.insert(
                            self@.escrow_count,
                            address,
                        ));
                    }
                }
                Ok(
                    FactoryEvent::EscrowCreated {
                        escrow_id: self.escrow_count,
                        escrow_address: address,
                    },
                )
            },
            Err(why) => Err(FactoryError::DeploymentFailed(why)),
        }
    }

    /// Looks an escrow identifier up in the registry.
    pub fn get_escrow_address(&self, escrow_id: EscrowId) -> (r: Option<ActorId>)
        ensures
            match r {
                Some(address) => self@.registry.contains_key(escrow_id) && address
                    == self@.registry[escrow_id],
                None => !self@.registry.contains_key(escrow_id),
            },
    {
        match self.id_to_address.get(&escrow_id) {
            Some(address) => Some(*address),
            None => None,
        }
    }

    /// The first half of the `Deposit(escrow_id)` proxy, up to its
    /// suspension point: the forwarded call, carrying the caller's identity
    /// and attached value to the addressed instance, or an immediate
    /// lookup failure with no side effect.
    pub fn deposit(&self, escrow_id: EscrowId, source: ActorId, value: u128) -> (r: Result<
        ProxyCall,
        FactoryError,
    >)
        ensures
            r == deposit_call_spec(self@, escrow_id, source, value),
    {
        match self.get_escrow_address(escrow_id) {
            Some(address) => Ok(
                ProxyCall { target: address, action: EscrowAction::Deposit(source), value },
            ),
            None => Err(FactoryError::NoSuchEscrow),
        }
    }

    /// The second half of the `Deposit(escrow_id)` proxy: the factory's own
    /// confirmation is emitted only after the instance's reply arrived; a
    /// failed call is propagated and no event is emitted.
    pub fn deposit_reply(&self, escrow_id: EscrowId, reply: Result<EscrowEvent, CallError>) -> (r:
        Result<FactoryEvent, FactoryError>)
        ensures
            r == deposit_reply_spec(escrow_id, reply),
    {
        match reply {
            Ok(_) => Ok(FactoryEvent::Deposited(escrow_id)),
            Err(why) => Err(FactoryError::CallFailed(why)),
        }
    }

    /// The first half of the `ConfirmDelivery(escrow_id)` proxy: the
    /// forwarded call, or an immediate lookup failure with no side effect.
    pub fn confirm_delivery(&self, escrow_id: EscrowId, source: ActorId, value: u128) -> (r: Result<
        ProxyCall,
        FactoryError,
    >)
        ensures
            r == confirm_call_spec(self@, escrow_id, source, value),
    {
        match self.get_escrow_address(escrow_id) {
            Some(address) => Ok(
                ProxyCall { target: address, action: EscrowAction::ConfirmDelivery(source), value },
            ),
            None => Err(FactoryError::NoSuchEscrow),
        }
    }

    /// The second half of the `ConfirmDelivery(escrow_id)` proxy.
    pub fn confirm_delivery_reply(
        &self,
        escrow_id: EscrowId,
        reply: Result<EscrowEvent, CallError>,
    ) -> (r: Result<FactoryEvent, FactoryError>)
        ensures
            r == confirm_reply_spec(escrow_id, reply),
    {
        match reply {
            Ok(_) => Ok(FactoryEvent::DeliveryConfirmed(escrow_id)),
            Err(why) => Err(FactoryError::CallFailed(why)),
        }
    }
}

} // verus!
