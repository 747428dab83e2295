use escrow_factory::escrow::{Escrow, EscrowError, EscrowEvent, InitEscrow, Payment};
use escrow_factory::factory::{
    CallError, DeployError, EscrowFactory, FactoryError, FactoryEvent, ProxyCall,
    GAS_FOR_CREATION,
};

const OWNER: u64 = 100;
const BUYER: u64 = 101;
const FACTORY_ADDRESS: u64 = 1;
const ESCROW_CODE_ID: u64 = 42;

/// Plays the host's part of one `create_escrow` call: performs the
/// deployment the factory asked for (the new instance runs its init and
/// replies), then lets the factory commit the outcome.
fn host_create_escrow(
    factory: &mut EscrowFactory,
    seller: u64,
    buyer: u64,
    price: u128,
    fresh_address: u64,
) -> (Escrow, Result<FactoryEvent, FactoryError>) {
    let request = factory.create_escrow_request(seller, buyer, price);
    assert_eq!(request.code_id, ESCROW_CODE_ID);
    assert_eq!(request.init, InitEscrow { seller, buyer, price });
    assert_eq!(request.gas, GAS_FOR_CREATION);
    let (escrow, reply) = Escrow::init(FACTORY_ADDRESS, request.init);
    assert_eq!(reply, EscrowEvent::ProgramInitialized);
    let event = factory.create_escrow_commit(Ok(fresh_address));
    (escrow, event)
}

#[test]
fn create_escrow() {
    let mut factory = EscrowFactory::init(ESCROW_CODE_ID);

    // send msg to create escrow
    let price: u128 = 0;
    let (_, res) = host_create_escrow(&mut factory, OWNER, BUYER, price, 2);
    assert_eq!(
        res,
        Ok(FactoryEvent::EscrowCreated { escrow_id: 1, escrow_address: 2 })
    );

    // send msg to create escrow
    let price: u128 = 9999;
    let (_, res) = host_create_escrow(&mut factory, BUYER, OWNER, price, 3);
    assert_eq!(
        res,
        Ok(FactoryEvent::EscrowCreated { escrow_id: 2, escrow_address: 3 })
    );

    assert_eq!(factory.escrow_count, 2);
}

#[test]
fn deposit_confirm_escrow() {
    let mut factory = EscrowFactory::init(ESCROW_CODE_ID);

    // send msg to create escrow
    let price: u128 = 0;
    let (mut escrow, res) = host_create_escrow(&mut factory, OWNER, BUYER, price, 2);
    assert!(res.is_ok());

    // send deposit action
    let escrow_id: u64 = 1;
    let call = factory.deposit(escrow_id, BUYER, 0).unwrap();
    assert_eq!(call.target, 2);
    let reply = escrow
        .handle(call.action, FACTORY_ADDRESS, call.value)
        .map(|(event, _)| event)
        .map_err(escrow_factory::factory::CallError::Rejected);
    let res = factory.deposit_reply(escrow_id, reply);
    assert_eq!(res, Ok(FactoryEvent::Deposited(escrow_id)));

    // send confirm delivery action
    let call = factory.confirm_delivery(escrow_id, BUYER, 0).unwrap();
    assert_eq!(call.target, 2);
    let reply = escrow
        .handle(call.action, FACTORY_ADDRESS, call.value)
        .map(|(event, _)| event)
        .map_err(escrow_factory::factory::CallError::Rejected);
    let res = factory.confirm_delivery_reply(escrow_id, reply);
    assert_eq!(res, Ok(FactoryEvent::DeliveryConfirmed(escrow_id)));
}

#[test]
fn deposit_unknown_escrow_fails() {
    let factory = EscrowFactory::init(ESCROW_CODE_ID);
    let res = factory.deposit(1, BUYER, 0);
    assert_eq!(res, Err(FactoryError::NoSuchEscrow));
    let res = factory.confirm_delivery(7, BUYER, 0);
    assert_eq!(res, Err(FactoryError::NoSuchEscrow));
    assert_eq!(factory.escrow_count, 0);
}

#[test]
fn create_escrow_deployment_failure() {
    let mut factory = EscrowFactory::init(ESCROW_CODE_ID);
    let res = factory.create_escrow_commit(Err(DeployError::InitFailed));
    assert_eq!(
        res,
        Err(FactoryError::DeploymentFailed(DeployError::InitFailed))
    );
    // no registry entry was made
    assert_eq!(factory.escrow_count, 0);
    assert_eq!(factory.get_escrow_address(1), None);
}

#[test]
fn sequential_creates_number_instances() {
    let mut factory = EscrowFactory::init(ESCROW_CODE_ID);
    let addresses: [u64; 3] = [20, 21, 22];
    for (i, address) in addresses.iter().enumerate() {
        let res = factory.create_escrow_commit(Ok(*address));
        assert_eq!(
            res,
            Ok(FactoryEvent::EscrowCreated {
                escrow_id: (i + 1) as u64,
                escrow_address: *address,
            })
        );
    }
    assert_eq!(factory.escrow_count, 3);
    assert_eq!(factory.get_escrow_address(1), Some(20));
    assert_eq!(factory.get_escrow_address(2), Some(21));
    assert_eq!(factory.get_escrow_address(3), Some(22));
    assert_eq!(factory.get_escrow_address(4), None);
}

#[test]
fn proxy_forwards_caller_and_value() {
    let mut factory = EscrowFactory::init(ESCROW_CODE_ID);
    let res = factory.create_escrow_commit(Ok(9));
    assert!(res.is_ok());
    let call = factory.deposit(1, BUYER, 12345).unwrap();
    assert_eq!(
        call,
        ProxyCall {
            target: 9,
            action: escrow_factory::escrow::EscrowAction::Deposit(BUYER),
            value: 12345,
        }
    );
}

#[test]
fn proxy_failure_is_propagated() {
    let mut factory = EscrowFactory::init(ESCROW_CODE_ID);
    let res = factory.create_escrow_commit(Ok(9));
    assert!(res.is_ok());

    // the instance rejected the action: no factory event is emitted
    let res = factory.deposit_reply(1, Err(CallError::Rejected(EscrowError::WrongValue)));
    assert_eq!(
        res,
        Err(FactoryError::CallFailed(CallError::Rejected(EscrowError::WrongValue)))
    );

    // the call never completed at the transport level
    let res = factory.confirm_delivery_reply(1, Err(CallError::Transport));
    assert_eq!(res, Err(FactoryError::CallFailed(CallError::Transport)));
}

#[test]
fn payment_is_sent_once_delivery_confirmed() {
    let mut factory = EscrowFactory::init(ESCROW_CODE_ID);
    let price: u128 = 5_000;
    let (mut escrow, _) = host_create_escrow(&mut factory, OWNER, BUYER, price, 2);

    let call = factory.deposit(1, BUYER, price).unwrap();
    let reply = escrow.handle(call.action, FACTORY_ADDRESS, call.value);
    let (event, payment) = reply.unwrap();
    assert_eq!(event, EscrowEvent::FundsDeposited);
    assert_eq!(payment, None);

    let call = factory.confirm_delivery(1, BUYER, 0).unwrap();
    let reply = escrow.handle(call.action, FACTORY_ADDRESS, call.value);
    let (event, payment) = reply.unwrap();
    assert_eq!(event, EscrowEvent::DeliveryConfirmed);
    assert_eq!(payment, Some(Payment { to: OWNER, amount: price }));
}
