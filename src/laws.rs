use vstd::prelude::*;

use crate::contract::{HousePurchaseContract, valid_installment};
use crate::data::{Error, Meeting, Party, State};

verus! {

/// A deposit that is not strictly below the price is refused with
/// `InvalidInstallment`, whatever the other terms and the instance's state,
/// and nothing changes.
pub proof fn lemma_deposit_not_below_price_refused<A, K>(
    c: HousePurchaseContract<A, K>,
    buyer: A,
    seller: A,
    token: A,
    first_payment: i128,
    amount: i128,
    key: K,
)
    requires
        first_payment >= amount,
    ensures
        c.create_op(buyer, seller, token, first_payment, amount, key) == (
        c,
        Err::<bool, Error>(Error::InvalidInstallment),
        ),
{
}

/// Creating a valid agreement on a fresh instance and then paying the deposit
/// moves it to `FirstPaymentSent` and moves exactly the deposit from buyer to seller.
pub proof fn lemma_create_then_pay<A, K>(
    c: HousePurchaseContract<A, K>,
    buyer: A,
    seller: A,
    token: A,
    first_payment: i128,
    amount: i128,
    key: K,
)
    requires
        c.wf(),
        c.trading is None,
        valid_installment(first_payment, amount),
    ensures
        ({
            let (c1, r1) = c.create_op(buyer, seller, token, first_payment, amount, key);
            let (c2, r2) = c1.pay_first_op();
            &&& r1 == Ok::<bool, Error>(true)
            &&& r2 == Ok::<i128, Error>(first_payment)
            &&& c2.wf()
            &&& c2.state == Some(State::FirstPaymentSent)
        }),
{
}

/// Before the deposit is paid, a meeting proposal is refused with `PreconditionNotMet`.
pub proof fn lemma_propose_before_deposit_refused<A, K>(
    c: HousePurchaseContract<A, K>,
    ts: u64,
    now: u64,
)
    requires
        c.wf(),
        c.state == Some(State::WaitingFirstPayment),
    ensures
        c.propose_op(ts, now) == Err::<bool, Error>(Error::PreconditionNotMet),
{
}

/// A proposal for a time not after the current time never succeeds; where
/// the deposit is paid and no acceptance is on record it is refused with
/// `InvalidSchedule`.
pub proof fn lemma_propose_past_time_refused<A, K>(
    c: HousePurchaseContract<A, K>,
    ts: u64,
    now: u64,
)
    requires
        c.wf(),
        ts <= now,
    ensures
        c.propose_op(ts, now) is Err,
        c.state == Some(State::FirstPaymentSent) && c.meeting is None ==> c.propose_op(ts, now)
            == Err::<bool, Error>(Error::InvalidSchedule),
{
}

/// Turning a meeting down returns `false` and records nothing, so a later
/// proposal fares exactly as it would have without it; in particular one for
/// a future time after the deposit, with no acceptance on record, succeeds.
pub proof fn lemma_refusal_records_nothing<A, K>(
    c: HousePurchaseContract<A, K>,
    refused_ts: u64,
    ts: u64,
    now: u64,
)
    requires
        c.wf(),
    ensures
        c.review_op(refused_ts, false) == (c, Ok::<bool, Error>(false)),
        c.review_op(refused_ts, false).0.propose_op(ts, now) == c.propose_op(ts, now),
        c.state == Some(State::FirstPaymentSent) && c.meeting is None && now < ts ==> c.review_op(
            refused_ts,
            false,
        ).0.propose_op(ts, now) == Ok::<bool, Error>(true),
{
}

/// Once a meeting at `t` is accepted, paying the remainder is refused with
/// `MeetingNotYetOccurred` until the current time is past `t`, and after
/// that succeeds with exactly `amount - first_payment`, ending the deal with
/// the buyer as custodian and no acceptance on record.
pub proof fn lemma_remainder_gated_by_meeting<A, K>(
    c: HousePurchaseContract<A, K>,
    t: u64,
    now: u64,
)
    requires
        c.wf(),
        c.state == Some(State::FirstPaymentSent),
    ensures
        ({
            let (c1, r1) = c.review_op(t, true);
            let (c2, r2) = c1.transfer_rest_op(now);
            &&& r1 == Ok::<bool, Error>(true)
            &&& c1.meeting == Some(Meeting { ts: t })
            &&& (now <= t ==> r2 == Err::<i128, Error>(Error::MeetingNotYetOccurred) && c2 == c1)
            &&& (t < now ==> {
                &&& r2 == Ok::<i128, Error>(
                    (c.trading->0.amount - c.trading->0.first_payment) as i128,
                )
                &&& c2.wf()
                &&& c2.state == Some(State::RestOfPaymentSent)
                &&& c2.custodian == Some(Party::Buyer)
                &&& c2.meeting is None
            })
        }),
{
}

/// On an instance that already holds an agreement, creating one with a
/// deposit below the price, negative or not, is refused with
/// `AlreadyInitialized` and overwrites nothing.
pub proof fn lemma_second_create_refused<A, K>(
    c: HousePurchaseContract<A, K>,
    buyer: A,
    seller: A,
    token: A,
    first_payment: i128,
    amount: i128,
    key: K,
)
    requires
        c.wf(),
        c.trading is Some,
        first_payment < amount,
    ensures
        c.create_op(buyer, seller, token, first_payment, amount, key) == (
        c,
        Err::<bool, Error>(Error::AlreadyInitialized),
        ),
{
}

/// While a meeting acceptance is on record, every proposal is refused with
/// `AlreadyAccepted`, whatever its time.
pub proof fn lemma_propose_while_accepted_refused<A, K>(
    c: HousePurchaseContract<A, K>,
    ts: u64,
    now: u64,
)
    requires
        c.wf(),
        c.meeting is Some,
    ensures
        c.propose_op(ts, now) == Err::<bool, Error>(Error::AlreadyAccepted),
{
}

/// Position of a lifecycle state along the deal; zero where no agreement exists.
pub open spec fn stage(s: Option<State>) -> int {
    match s {
        None => 0,
        Some(State::WaitingFirstPayment) => 1,
        Some(State::FirstPaymentSent) => 2,
        Some(State::RestOfPaymentSent) => 3,
    }
}

/// Every operation keeps the instance well formed, never moves the lifecycle
/// back, leaves the agreed terms alone once they exist, and changes nothing
/// when it fails.
pub proof fn lemma_lifecycle_never_regresses<A, K>(
    c: HousePurchaseContract<A, K>,
    buyer: A,
    seller: A,
    token: A,
    first_payment: i128,
    amount: i128,
    key: K,
    ts: u64,
    accept: bool,
    now: u64,
)
    requires
        c.wf(),
    ensures
        ({
            let (c1, r1) = c.create_op(buyer, seller, token, first_payment, amount, key);
            c1.wf() && stage(c1.state) >= stage(c.state) && (r1 is Err ==> c1 == c) && (
            c.trading is Some ==> c1.trading == c.trading)
        }),
        ({
            let (c1, r1) = c.pay_first_op();
            c1.wf() && stage(c1.state) >= stage(c.state) && (r1 is Err ==> c1 == c)
                && c1.trading == c.trading
        }),
        ({
            let (c1, r1) = c.review_op(ts, accept);
            c1.wf() && stage(c1.state) >= stage(c.state) && (r1 is Err ==> c1 == c)
                && c1.trading == c.trading
        }),
        ({
            let (c1, r1) = c.transfer_rest_op(now);
            c1.wf() && stage(c1.state) >= stage(c.state) && (r1 is Err ==> c1 == c)
                && c1.trading == c.trading
        }),
{
}

} // verus!
