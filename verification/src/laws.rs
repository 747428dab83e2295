//! The laws the escrow pair obeys, proved once and for all over the
//! specification-level transition functions that the executable handlers
//! are verified against.

use vstd::prelude::*;

use crate::escrow::{
    confirm_check, confirm_next, confirm_payment, deposit_check, deposit_next, init_spec, Escrow,
    EscrowAction, EscrowError, EscrowEvent, EscrowState, InitEscrow, Payment,
};
use crate::factory::{
    confirm_call_spec, confirm_reply_spec, create_commit_next, deposit_call_spec,
    deposit_reply_spec, next_count, CallError, FactoryError, FactoryEvent, FactoryView, ProxyCall,
};
use crate::{ActorId, EscrowId};

verus! {

broadcast use vstd::set::group_set_axioms, vstd::map::group_map_axioms;

/// How far along the state machine a state is; transitions only increase it.
pub open spec fn state_rank(s: EscrowState) -> int {
    match s {
        EscrowState::AwaitingPayment => 0,
        EscrowState::AwaitingDelivery => 1,
        EscrowState::Closed => 2,
    }
}

/// A freshly initialized escrow awaits payment, holds nothing, and has the
/// parties and price it was deployed with.
pub proof fn lemma_init_awaits_payment(factory_id: ActorId, config: InitEscrow)
    ensures
        init_spec(factory_id, config).state == EscrowState::AwaitingPayment,
        init_spec(factory_id, config).held == 0,
        init_spec(factory_id, config).factory_id == factory_id,
        init_spec(factory_id, config).seller == config.seller,
        init_spec(factory_id, config).buyer == config.buyer,
        init_spec(factory_id, config).price == config.price,
        init_spec(factory_id, config).wf(),
{
}

/// On a freshly initialized escrow, a deposit from any identity other than
/// the deploying factory, or with any attached value other than the price,
/// is rejected.
pub proof fn lemma_deposit_guarded(
    factory_id: ActorId,
    config: InitEscrow,
    source: ActorId,
    account: ActorId,
    value: u128,
)
    requires
        source != factory_id || value != config.price,
    ensures
        deposit_check(init_spec(factory_id, config), source, account, value) is Err,
{
}

/// A deposit is never accepted twice: after one accepted deposit, every
/// further deposit is rejected for its state, whoever makes it.
pub proof fn lemma_second_deposit_fails(
    e: Escrow,
    source: ActorId,
    account: ActorId,
    value: u128,
    source2: ActorId,
    account2: ActorId,
    value2: u128,
)
    requires
        deposit_check(e, source, account, value) is Ok,
    ensures
        deposit_check(deposit_next(e, value), source2, account2, value2) == Err::<
            (),
            EscrowError,
        >(EscrowError::WrongState),
{
}

/// Before any deposit has been accepted, a delivery confirmation is
/// rejected, whoever asks for it.
pub proof fn lemma_confirm_before_deposit_fails(e: Escrow, source: ActorId, account: ActorId)
    requires
        e.state == EscrowState::AwaitingPayment,
    ensures
        confirm_check(e, source, account) == Err::<(), EscrowError>(EscrowError::WrongState),
{
}

/// After an accepted deposit followed by an accepted delivery confirmation,
/// the payment handed to the host carries exactly the price to the seller
/// — so the seller's balance grows by exactly the price — and the escrow
/// holds nothing and is closed.
pub proof fn lemma_deposit_then_confirm_pays_seller(
    e: Escrow,
    source: ActorId,
    account: ActorId,
    value: u128,
    source2: ActorId,
    account2: ActorId,
    seller_balance: int,
)
    requires
        e.wf(),
        deposit_check(e, source, account, value) is Ok,
        confirm_check(deposit_next(e, value), source2, account2) is Ok,
    ensures
        confirm_payment(deposit_next(e, value)) == (Payment { to: e.seller, amount: e.price }),
        seller_balance + confirm_payment(deposit_next(e, value)).amount == seller_balance
            + e.price,
        confirm_next(deposit_next(e, value)).held == 0,
        confirm_next(deposit_next(e, value)).state == EscrowState::Closed,
        confirm_next(deposit_next(e, value)).wf(),
{
}

/// Every accepted transition moves the state machine strictly forward.
pub proof fn lemma_transitions_move_forward(
    e: Escrow,
    source: ActorId,
    account: ActorId,
    value: u128,
)
    ensures
        deposit_check(e, source, account, value) is Ok ==> state_rank(
            deposit_next(e, value).state,
        ) > state_rank(e.state),
        confirm_check(e, source, account) is Ok ==> state_rank(confirm_next(e).state)
            > state_rank(e.state),
{
}

/// `Closed` is terminal: a closed escrow rejects every action, and a
/// well-formed closed escrow holds no residual value.
pub proof fn lemma_closed_is_terminal(e: Escrow, source: ActorId, account: ActorId, value: u128)
    requires
        e.state == EscrowState::Closed,
    ensures
        deposit_check(e, source, account, value) == Err::<(), EscrowError>(
            EscrowError::WrongState,
        ),
        confirm_check(e, source, account) == Err::<(), EscrowError>(EscrowError::WrongState),
        e.wf() ==> e.held == 0,
{
}

/// Recording a deployed instance only extends the registry: the counter
/// moves up by one (saturating at the largest identifier), every other
/// binding is kept unchanged, and the new identifier is bound to the
/// deployed address. Entries are never removed.
pub proof fn lemma_create_extends_registry(v: FactoryView, address: ActorId)
    requires
        v.wf(),
    ensures
        create_commit_next(v, address).wf(),
        create_commit_next(v, address).escrow_count == next_count(v.escrow_count),
        v.escrow_count < EscrowId::MAX ==> create_commit_next(v, address).escrow_count
            == v.escrow_count + 1,
        create_commit_next(v, address).registry[next_count(v.escrow_count)] == address,
        forall|id: EscrowId|
            #[trigger] v.registry.contains_key(id) && id != next_count(v.escrow_count)
                ==> create_commit_next(v, address).registry[id] == v.registry[id],
{
    let cur = create_commit_next(v, address);
    assert forall|id: EscrowId| #[trigger]
        cur.registry.contains_key(id) <==> 1 <= id <= cur.escrow_count by {
        assert(v.registry.contains_key(id) <==> 1 <= id <= v.escrow_count);
    }
}

/// The factory after a sequence of successfully deployed instances,
/// recorded in order.
pub open spec fn run_creates(v: FactoryView, addrs: Seq<ActorId>) -> FactoryView
    decreases addrs.len(),
{
    if addrs.len() == 0 {
        v
    } else {
        create_commit_next(run_creates(v, addrs.drop_last()), addrs.last())
    }
}

/// From a fresh factory, N sequential successful creations leave the
/// counter at N and the registry with exactly N entries, the identifiers
/// `1 ..= N` in order of creation, each bound to the address the host
/// returned for it.
pub proof fn lemma_sequential_creates(v: FactoryView, addrs: Seq<ActorId>)
    requires
        v.escrow_count == 0,
        v.registry == Map::<EscrowId, ActorId>::empty(),
        addrs.len() <= EscrowId::MAX,
    ensures
        run_creates(v, addrs).escrow_count == addrs.len(),
        run_creates(v, addrs).registry.dom().finite(),
        run_creates(v, addrs).registry.dom().len() == addrs.len(),
        forall|id: EscrowId|
            1 <= id <= addrs.len() ==> #[trigger] run_creates(v, addrs).registry[id] == addrs[id
                - 1],
        run_creates(v, addrs).wf(),
        run_creates(v, addrs).escrow_code_id == v.escrow_code_id,
    decreases addrs.len(),
{
    let cur = run_creates(v, addrs);
    if addrs.len() == 0 {
        assert(cur.registry.dom() =~= Set::<EscrowId>::empty());
    } else {
        let prefix = addrs.drop_last();
        let prev = run_creates(v, prefix);
        lemma_sequential_creates(v, prefix);
        let new_id = next_count(prev.escrow_count);
        assert(new_id == addrs.len());
        assert(!prev.registry.contains_key(new_id));
        assert(cur.registry == prev.registry.insert(new_id, addrs.last()));
        assert(cur.registry.dom() =~= prev.registry.dom().insert(new_id));
        assert forall|id: EscrowId| 1 <= id <= addrs.len() implies #[trigger] cur.registry[id]
            == addrs[id - 1] by {
            if id < addrs.len() {
                assert(prev.registry[id] == prefix[id - 1]);
                assert(prefix[id - 1] == addrs[id - 1]);
            }
        }
        assert forall|id: EscrowId| #[trigger]
            cur.registry.contains_key(id) <==> 1 <= id <= cur.escrow_count by {
            assert(prev.registry.contains_key(id) <==> 1 <= id <= prev.escrow_count);
        }
    }
}

/// When the host returns pairwise distinct addresses — fresh programs have
/// fresh identities — the registry binds its identifiers to pairwise
/// distinct addresses.
pub proof fn lemma_sequential_creates_distinct(v: FactoryView, addrs: Seq<ActorId>)
    requires
        v.escrow_count == 0,
        v.registry == Map::<EscrowId, ActorId>::empty(),
        addrs.len() <= EscrowId::MAX,
        forall|i: int, j: int| 0 <= i < j < addrs.len() ==> addrs[i] != addrs[j],
    ensures
        forall|id1: EscrowId, id2: EscrowId|
            1 <= id1 < id2 <= addrs.len() ==> #[trigger] run_creates(v, addrs).registry[id1]
                != #[trigger] run_creates(v, addrs).registry[id2],
{
    lemma_sequential_creates(v, addrs);
    assert forall|id1: EscrowId, id2: EscrowId| 1 <= id1 < id2 <= addrs.len() implies #[trigger]
        run_creates(v, addrs).registry[id1] != #[trigger] run_creates(v, addrs).registry[id2] by {
        assert(run_creates(v, addrs).registry[id1] == addrs[id1 - 1]);
        assert(run_creates(v, addrs).registry[id2] == addrs[id2 - 1]);
    }
}

/// A proxied action on an unregistered identifier fails at the lookup, so
/// no forwarded call is made; the proxy operations take the factory
/// immutably, so no factory state can change either.
pub proof fn lemma_proxy_unknown_escrow(
    v: FactoryView,
    escrow_id: EscrowId,
    source: ActorId,
    value: u128,
)
    requires
        !v.registry.contains_key(escrow_id),
    ensures
        deposit_call_spec(v, escrow_id, source, value) == Err::<ProxyCall, FactoryError>(
            FactoryError::NoSuchEscrow,
        ),
        confirm_call_spec(v, escrow_id, source, value) == Err::<ProxyCall, FactoryError>(
            FactoryError::NoSuchEscrow,
        ),
{
}

/// A proxied deposit on a registered identifier forwards the caller's
/// identity and attached value, unchanged, to the registered address.
pub proof fn lemma_proxy_known_escrow(
    v: FactoryView,
    escrow_id: EscrowId,
    source: ActorId,
    value: u128,
)
    requires
        v.registry.contains_key(escrow_id),
    ensures
        deposit_call_spec(v, escrow_id, source, value) == Ok::<ProxyCall, FactoryError>(
            ProxyCall {
                target: v.registry[escrow_id],
                action: EscrowAction::Deposit(source),
                value,
            },
        ),
        confirm_call_spec(v, escrow_id, source, value) == Ok::<ProxyCall, FactoryError>(
            ProxyCall {
                target: v.registry[escrow_id],
                action: EscrowAction::ConfirmDelivery(source),
                value,
            },
        ),
{
}

/// The factory's own event is emitted exactly when the instance's reply
/// arrived; a failed forwarded call is propagated and no event is emitted.
pub proof fn lemma_event_only_after_confirmation(
    escrow_id: EscrowId,
    reply: Result<EscrowEvent, CallError>,
)
    ensures
        reply is Ok ==> deposit_reply_spec(escrow_id, reply) == Ok::<FactoryEvent, FactoryError>(
            FactoryEvent::Deposited(escrow_id),
        ),
        reply is Ok ==> confirm_reply_spec(escrow_id, reply) == Ok::<FactoryEvent, FactoryError>(
            FactoryEvent::DeliveryConfirmed(escrow_id),
        ),
        reply is Err ==> deposit_reply_spec(escrow_id, reply) is Err,
        reply is Err ==> confirm_reply_spec(escrow_id, reply) is Err,
{
}

} // verus!
