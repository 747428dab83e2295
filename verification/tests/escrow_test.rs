use escrow_factory::escrow::{Escrow, EscrowEvent, EscrowState, InitEscrow, Payment};

const BUYER: u64 = 100;
const SELLER: u64 = 101;
const PRICE: u128 = 100_000;
const FACTORY_ID: u64 = 10;

fn init_escrow() -> Escrow {
    let (escrow, event) = Escrow::init(
        FACTORY_ID,
        InitEscrow { seller: SELLER, buyer: BUYER, price: PRICE },
    );
    assert_eq!(event, EscrowEvent::ProgramInitialized);
    escrow
}

#[test]
fn escrow_test_deposit() {
    let mut escrow = init_escrow();

    let res = escrow.deposit(FACTORY_ID, BUYER, PRICE);
    assert_eq!(res, Ok(EscrowEvent::FundsDeposited));

    let escrow_balance = escrow.held;
    assert_eq!(escrow_balance, PRICE);
}

#[test]
fn escrow_test_deposit_failures() {
    let mut escrow = init_escrow();

    // must fail since the attached value is not the price
    let res = escrow.deposit(FACTORY_ID, BUYER, 2 * PRICE - 500);
    assert!(res.is_err());

    // must fail since the indicated account is not BUYER
    let res = escrow.deposit(FACTORY_ID, SELLER, 0);
    assert!(res.is_err());

    // successful deposit
    let res = escrow.deposit(FACTORY_ID, BUYER, PRICE);
    assert!(!res.is_err());

    // must fail since the state must be `AwaitingPayment`
    let res = escrow.deposit(FACTORY_ID, BUYER, PRICE);
    assert!(res.is_err());
}

#[test]
fn confirm_delivery() {
    let mut escrow = init_escrow();
    let mut seller_balance: u128 = 0;

    // must fail since the state must be `AwaitingDelivery`
    let res = escrow.confirm_delivery(FACTORY_ID, SELLER);
    assert!(res.is_err());

    // successful deposit
    let res = escrow.deposit(FACTORY_ID, BUYER, PRICE);
    assert!(!res.is_err());

    // must fail since the indicated account must be the buyer
    let res = escrow.confirm_delivery(FACTORY_ID, SELLER);
    assert!(res.is_err());

    // successful delivery confirming
    let res = escrow.confirm_delivery(FACTORY_ID, BUYER);
    assert!(!res.is_err());
    let (event, payment) = res.unwrap();
    assert_eq!(event, EscrowEvent::DeliveryConfirmed);
    assert_eq!(payment, Payment { to: SELLER, amount: PRICE });

    // the host performs the transfer the instance asked for
    seller_balance += payment.amount;
    assert_eq!(seller_balance, PRICE);
    assert_eq!(escrow.held, 0);
    assert_eq!(escrow.state, EscrowState::Closed);
}
