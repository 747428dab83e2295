//! A single escrow instance: buyer, seller, price, and a payment state
//! machine that moves strictly forward from `AwaitingPayment` through
//! `AwaitingDelivery` to `Closed`.
//!
//! The instance is deployed by a factory and trusts only it: the identity
//! that sent the init message is recorded as `factory_id`, and every later
//! action must arrive from that identity. The caller on whose behalf the
//! factory acts is passed along inside the action and must be the buyer.

use vstd::prelude::*;

use crate::ActorId;

verus! {

/// Payment state of an escrow instance. Transitions only move forward:
/// `AwaitingPayment` to `AwaitingDelivery` to `Closed`; `Closed` is terminal.
#[derive(Clone, Copy, Debug, PartialEq, Eq, Structural)]
pub enum EscrowState {
    AwaitingPayment,
    AwaitingDelivery,
    Closed,
}

impl Default for EscrowState {
    fn default() -> (s: Self)
        ensures
            s == EscrowState::AwaitingPayment,
    {
        EscrowState::AwaitingPayment
    }
}

/// Payload of the init message that deploys an escrow instance.
#[derive(Clone, Copy, Debug, PartialEq, Eq, Structural)]
pub struct InitEscrow {
    pub seller: ActorId,
    pub buyer: ActorId,
    pub price: u128,
}

/// An action the factory forwards to an escrow instance. The carried
/// identity is the original caller the factory acts for.
#[derive(Clone, Copy, Debug, PartialEq, Eq, Structural)]
pub enum EscrowAction {
    Deposit(ActorId),
    ConfirmDelivery(ActorId),
}

/// A reply an escrow instance sends back.
#[derive(Clone, Copy, Debug, PartialEq, Eq, Structural)]
pub enum EscrowEvent {
    ProgramInitialized,
    FundsDeposited,
    DeliveryConfirmed,
    PaymentToSeller,
}

/// Why an escrow action was rejected. Exactly one precondition is reported:
/// the first that fails, in the order the checks are made
/// (state, caller, account, value).
#[derive(Clone, Copy, Debug, PartialEq, Eq, Structural)]
pub enum EscrowError {
    WrongState,
    WrongCaller,
    WrongAccount,
    WrongValue,
}

/// A value transfer the instance asks the host to perform
/// (fire-and-forget, not awaited).
#[derive(Clone, Copy, Debug, PartialEq, Eq, Structural)]
pub struct Payment {
    pub to: ActorId,
    pub amount: u128,
}

/// One escrow instance. `held` is the value the instance currently holds:
/// the attached deposit while delivery is awaited, zero otherwise.
#[derive(Clone, Copy, Debug, PartialEq, Eq, Structural)]
pub struct Escrow {
    pub factory_id: ActorId,
    pub seller: ActorId,
    pub buyer: ActorId,
    pub price: u128,
    pub state: EscrowState,
    pub held: u128,
}

/// The escrow an init message with config `config`, sent by `factory_id`,
/// brings into existence.
pub open spec fn init_spec(factory_id: ActorId, config: InitEscrow) -> Escrow {
    Escrow {
        factory_id,
        seller: config.seller,
        buyer: config.buyer,
        price: config.price,
        state: EscrowState::AwaitingPayment,
        held: 0,
    }
}

/// Whether a deposit by `source` for `account` with attached `value` is
/// accepted in state `e`, and if not, which precondition failed first.
pub open spec fn deposit_check(
    e: Escrow,
    source: ActorId,
    account: ActorId,
    value: u128,
) -> Result<(), EscrowError> {
    if e.state != EscrowState::AwaitingPayment {
        Err(EscrowError::WrongState)
    } else if source != e.factory_id {
        Err(EscrowError::WrongCaller)
    } else if account != e.buyer {
        Err(EscrowError::WrongAccount)
    } else if value != e.price {
        Err(EscrowError::WrongValue)
    } else {
        Ok(())
    }
}

/// The escrow after an accepted deposit of `value`: the attached value is
/// kept and delivery is awaited.
pub open spec fn deposit_next(e: Escrow, value: u128) -> Escrow {
    Escrow { state: EscrowState::AwaitingDelivery, held: (e.held + value) as u128, ..e }
}

/// Whether a delivery confirmation by `source` for `account` is accepted
/// in state `e`, and if not, which precondition failed first.
pub open spec fn confirm_check(e: Escrow, source: ActorId, account: ActorId) -> Result<
    (),
    EscrowError,
> {
    if e.state != EscrowState::AwaitingDelivery {
        Err(EscrowError::WrongState)
    } else if source != e.factory_id {
        Err(EscrowError::WrongCaller)
    } else if account != e.buyer {
        Err(EscrowError::WrongAccount)
    } else {
        Ok(())
    }
}

/// The escrow after an accepted delivery confirmation: closed, the full
/// price paid out.
pub open spec fn confirm_next(e: Escrow) -> Escrow {
    Escrow { state: EscrowState::Closed, held: (e.held - e.price) as u128, ..e }
}

/// The value transfer an accepted delivery confirmation hands to the host:
/// the full price, to the seller.
pub open spec fn confirm_payment(e: Escrow) -> Payment {
    Payment { to: e.seller, amount: e.price }
}

impl Escrow {
    /// The instance's balance is tied to its state: the full price is held
    /// exactly while delivery is awaited, and nothing is held once closed
    /// (or before the deposit).
    pub open spec fn wf(&self) -> bool {
        match self.state {
            EscrowState::AwaitingDelivery => self.held == self.price,
            _ => self.held == 0,
        }
    }

    /// Handles the one-time init message: records whoever sent it as the
    /// only identity allowed to invoke the instance, fixes seller, buyer
    /// and price, and replies that the program is initialized.
    pub fn init(factory_id: ActorId, config: InitEscrow) -> (r: (Escrow, EscrowEvent))
        ensures
            r.0 == init_spec(factory_id, config),
            r.0.wf(),
            r.1 == EscrowEvent::ProgramInitialized,
    {
        let escrow = Escrow {
            factory_id,
            seller: config.seller,
            buyer: config.buyer,
            price: config.price,
            state: EscrowState::AwaitingPayment,
            held: 0,
        };
        (escrow, EscrowEvent::ProgramInitialized)
    }

    /// The buyer's payment. Accepted only while payment is awaited, only
    /// from the factory, only for the buyer, and only with the exact price
    /// attached; the first failing check is reported and nothing changes.
    /// On success the value stays with the instance and delivery is awaited.
    pub fn deposit(&mut self, source: ActorId, account: ActorId, value: u128) -> (r: Result<
        EscrowEvent,
        EscrowError,
    >)
        requires
            old(self).wf(),
        ensures
            final(self).wf(),
            match deposit_check(*old(self), source, account, value) {
                Ok(()) => r == Ok::<EscrowEvent, EscrowError>(EscrowEvent::FundsDeposited)
                    && *final(self) == deposit_next(*old(self), value),
                Err(why) => r == Err::<EscrowEvent, EscrowError>(why) && *final(self) == *old(
                    self,
                ),
            },
    {
        if self.state != EscrowState::AwaitingPayment {
            return Err(EscrowError::WrongState);
        }
        if source != self.factory_id {
            return Err(EscrowError::WrongCaller);
        }
        if account != self.buyer {
            return Err(EscrowError::WrongAccount);
        }
        if value != self.price {
            return Err(EscrowError::WrongValue);
        }
        self.state = EscrowState::AwaitingDelivery;
        self.held = self.held + value;
        Ok(EscrowEvent::FundsDeposited)
    }

    /// The buyer's confirmation that the goods arrived. Accepted only while
    /// delivery is awaited, only from the factory, and only for the buyer;
    /// the first failing check is reported and nothing changes. On success
    /// the instance closes and hands the host a transfer of the full held
    /// price to the seller. The state commits together with the request:
    /// whether the host's send later succeeds is outside the instance.
    pub fn confirm_delivery(&mut self, source: ActorId, account: ActorId) -> (r: Result<
        (EscrowEvent, Payment),
        EscrowError,
    >)
        requires
            old(self).wf(),
        ensures
            final(self).wf(),
            match confirm_check(*old(self), source, account) {
                Ok(()) => r == Ok::<(EscrowEvent, Payment), EscrowError>(
                    (EscrowEvent::DeliveryConfirmed, confirm_payment(*old(self))),
                ) && *final(self) == confirm_next(*old(self)),
                Err(why) => r == Err::<(EscrowEvent, Payment), EscrowError>(why) && *final(self)
                    == *old(self),
            },
    {
        if self.state != EscrowState::AwaitingDelivery {
            return Err(EscrowError::WrongState);
        }
        if source != self.factory_id {
            return Err(EscrowError::WrongCaller);
        }
        if account != self.buyer {
            return Err(EscrowError::WrongAccount);
        }
        let payment = Payment { to: self.seller, amount: self.price };
        self.state = EscrowState::Closed;
        self.held = self.held - payment.amount;
        Ok((EscrowEvent::DeliveryConfirmed, payment))
    }

    /// Dispatches one incoming action, as the instance's message handler
    /// does: the reply on success, and for a delivery confirmation also the
    /// payment the host is asked to send.
    pub fn handle(&mut self, action: EscrowAction, source: ActorId, value: u128) -> (r: Result<
        (EscrowEvent, Option<Payment>),
        EscrowError,
    >)
        requires
            old(self).wf(),
        ensures
            final(self).wf(),
            match action {
                EscrowAction::Deposit(account) => match deposit_check(
                    *old(self),
                    source,
                    account,
                    value,
                ) {
                    Ok(()) => r == Ok::<(EscrowEvent, Option<Payment>), EscrowError>(
                        (EscrowEvent::FundsDeposited, None::<Payment>),
                    ) && *final(self) == deposit_next(*old(self), value),
                    Err(why) => r == Err::<(EscrowEvent, Option<Payment>), EscrowError>(why)
                        && *final(self) == *old(self),
                },
                EscrowAction::ConfirmDelivery(account) => match confirm_check(
                    *old(self),
                    source,
                    account,
                ) {
                    Ok(()) => r == Ok::<(EscrowEvent, Option<Payment>), EscrowError>(
                        (EscrowEvent::DeliveryConfirmed, Some(confirm_payment(*old(self)))),
                    ) && *final(self) == confirm_next(*old(self)),
                    Err(why) => r == Err::<(EscrowEvent, Option<Payment>), EscrowError>(why)
                        && *final(self) == *old(self),
                },
            },
    {
        match action {
            EscrowAction::Deposit(account) => {
                match self.deposit(source, account, value) {
                    Ok(event) => Ok((event, None)),
                    Err(why) => Err(why),
                }
            },
            EscrowAction::ConfirmDelivery(account) => {
                match self.confirm_delivery(source, account) {
                    Ok((event, payment)) => Ok((event, Some(payment))),
                    Err(why) => Err(why),
                }
            },
        }
    }
}

} // verus!
