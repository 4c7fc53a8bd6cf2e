use vstd::prelude::*;

use crate::data::{Error, Meeting, Party, PurchaseTrading, State};

verus! {

/// The persisted state of one escrow instance: the agreement, its lifecycle
/// state, the custodian, and the meeting acceptance, if one is on record.
pub struct HousePurchaseContract<A, K> {
    pub trading: Option<PurchaseTrading<A, K>>,
    pub state: Option<State>,
    pub custodian: Option<Party>,
    pub meeting: Option<Meeting>,
}

/// The deal terms are consistent: a deposit of at least zero, strictly below the price.
pub open spec fn valid_installment(first_payment: i128, amount: i128) -> bool {
    0 <= first_payment < amount
}

impl<A, K> HousePurchaseContract<A, K> {
    /// The agreement, lifecycle state and custodian exist together; the
    /// custodian is the buyer exactly once the remainder is paid; a meeting
    /// acceptance exists only while the deposit is paid and the remainder not.
    pub open spec fn wf(&self) -> bool {
        &&& (self.trading is Some) == (self.state is Some)
        &&& (self.trading is Some) == (self.custodian is Some)
        &&& (self.trading matches Some(t) ==> valid_installment(t.first_payment, t.amount))
        &&& (self.state matches Some(s) ==> (self.custodian == Some(Party::Buyer) <==> s
            == State::RestOfPaymentSent))
        &&& (self.meeting is Some ==> self.state == Some(State::FirstPaymentSent))
    }

    /// State and result of creating the agreement.
    pub open spec fn create_op(
        self,
        buyer: A,
        seller: A,
        token: A,
        first_payment: i128,
        amount: i128,
        key: K,
    ) -> (Self, Result<bool, Error>) {
        if amount <= first_payment {
            (self, Err(Error::InvalidInstallment))
        } else if self.trading is Some {
            (self, Err(Error::AlreadyInitialized))
        } else if first_payment < 0 {
            (self, Err(Error::InvalidInstallment))
        } else {
            (
                HousePurchaseContract {
                    trading: Some(PurchaseTrading { amount, first_payment, token, key, seller, buyer }),
                    state: Some(State::WaitingFirstPayment),
                    custodian: Some(Party::Seller),
                    meeting: None,
                },
                Ok(true),
            )
        }
    }

    /// State and result of paying the deposit; `Ok` holds the amount that
    /// moves from buyer to seller.
    pub open spec fn pay_first_op(self) -> (Self, Result<i128, Error>) {
        match self.trading {
            None => (self, Err(Error::NotFound)),
            Some(t) => if self.state != Some(State::WaitingFirstPayment) {
                (self, Err(Error::PreconditionNotMet))
            } else {
                (
                    HousePurchaseContract { state: Some(State::FirstPaymentSent), ..self },
                    Ok(t.first_payment),
                )
            },
        }
    }

    /// Result of the seller proposing a meeting at `ts` at time `now`; the
    /// proposal itself changes nothing.
    pub open spec fn propose_op(self, ts: u64, now: u64) -> Result<bool, Error> {
        if self.state != Some(State::FirstPaymentSent) {
            Err(Error::PreconditionNotMet)
        } else if self.meeting is Some {
            Err(Error::AlreadyAccepted)
        } else if ts <= now {
            Err(Error::InvalidSchedule)
        } else {
            Ok(true)
        }
    }

    /// State and result of the buyer's answer to a meeting at `ts`.
    pub open spec fn review_op(self, ts: u64, accept: bool) -> (Self, Result<bool, Error>) {
        if !accept {
            (self, Ok(false))
        } else if self.state != Some(State::FirstPaymentSent) {
            (self, Err(Error::PreconditionNotMet))
        } else {
            (HousePurchaseContract { meeting: Some(Meeting { ts }), ..self }, Ok(true))
        }
    }

    /// State and result of paying the remainder at time `now`; `Ok` holds
    /// the amount that moves from buyer to seller.
    pub open spec fn transfer_rest_op(self, now: u64) -> (Self, Result<i128, Error>) {
        match self.meeting {
            None => (self, Err(Error::MeetingNotAccepted)),
            Some(m) => if !(m.ts < now) {
                (self, Err(Error::MeetingNotYetOccurred))
            } else {
                (
                    HousePurchaseContract {
                        state: Some(State::RestOfPaymentSent),
                        custodian: Some(Party::Buyer),
                        meeting: None,
                        ..self
                    },
                    Ok((self.trading->0.amount - self.trading->0.first_payment) as i128),
                )
            },
        }
    }

    /// An instance with no agreement yet.
    pub fn new() -> (r: Self)
        ensures
            r.wf(),
            r.trading is None,
            r.meeting is None,
    {
        HousePurchaseContract { trading: None, state: None, custodian: None, meeting: None }
    }

    /// Whether the instance is well formed; state read back from a store is
    /// tested with it before any operation runs on it.
    pub fn is_well_formed(&self) -> (r: bool)
        ensures
            r == self.wf(),
    {
        let has_trading = self.trading.is_some();
        if has_trading != self.state.is_some() || has_trading != self.custodian.is_some() {
            return false;
        }
        if let Some(t) = &self.trading {
            if !(0 <= t.first_payment && t.first_payment < t.amount) {
                return false;
            }
        }
        if let Some(s) = self.state {
            let ended = s == State::RestOfPaymentSent;
            if (self.custodian == Some(Party::Buyer)) != ended {
                return false;
            }
        }
        self.meeting.is_none() || self.state == Some(State::FirstPaymentSent)
    }

    /// Creates the agreement: fails `InvalidInstallment` where the deposit is
    /// not below the price, then `AlreadyInitialized` where an agreement
    /// exists, then `InvalidInstallment` where the deposit is negative;
    /// otherwise records the terms, waiting for the deposit, with the seller
    /// as custodian.
    pub fn real_state_trading(
        &mut self,
        buyer: A,
        seller: A,
        token: A,
        first_payment: i128,
        amount: i128,
        key: K,
    ) -> (r: Result<bool, Error>)
        requires
            old(self).wf(),
        ensures
            final(self).wf(),
            (*final(self), r) == old(self).create_op(buyer, seller, token, first_payment, amount, key),
    {
        if amount <= first_payment {
            return Err(Error::InvalidInstallment);
        }
        if self.trading.is_some() {
            return Err(Error::AlreadyInitialized);
        }
        if first_payment < 0 {
            return Err(Error::InvalidInstallment);
        }
        self.trading = Some(PurchaseTrading { amount, first_payment, token, key, seller, buyer });
        self.state = Some(State::WaitingFirstPayment);
        self.custodian = Some(Party::Seller);
        Ok(true)
    }

    /// Pays the deposit: fails `NotFound` without an agreement and
    /// `PreconditionNotMet` unless it waits for the deposit; otherwise moves
    /// to `FirstPaymentSent` and returns the deposit, owed by buyer to seller.
    pub fn transfer_first_payment(&mut self) -> (r: Result<i128, Error>)
        requires
            old(self).wf(),
        ensures
            final(self).wf(),
            (*final(self), r) == old(self).pay_first_op(),
    {
        let first_payment: i128 = match &self.trading {
            None => {
                return Err(Error::NotFound);
            },
            Some(t) => t.first_payment,
        };
        if self.state != Some(State::WaitingFirstPayment) {
            return Err(Error::PreconditionNotMet);
        }
        self.state = Some(State::FirstPaymentSent);
        Ok(first_payment)
    }

    /// Checks a meeting proposal at `ts`, at time `now`: fails
    /// `PreconditionNotMet` unless the deposit is paid and the remainder not,
    /// `AlreadyAccepted` while an acceptance is on record, and
    /// `InvalidSchedule` unless `ts` is after `now`. Nothing is recorded.
    pub fn seller_propose_meeting(&self, ts: u64, now: u64) -> (r: Result<bool, Error>)
        requires
            self.wf(),
        ensures
            r == self.propose_op(ts, now),
    {
        if self.state != Some(State::FirstPaymentSent) {
            return Err(Error::PreconditionNotMet);
        }
        if self.meeting.is_some() {
            return Err(Error::AlreadyAccepted);
        }
        if ts <= now {
            return Err(Error::InvalidSchedule);
        }
        Ok(true)
    }

    /// The buyer's answer to a meeting at `ts`: a refusal returns `false`
    /// and records nothing; an acceptance fails `PreconditionNotMet` unless
    /// the deposit is paid and the remainder not, and otherwise records the
    /// meeting and returns `true`.
    pub fn buyer_review_meeting(&mut self, ts: u64, accept: bool) -> (r: Result<bool, Error>)
        requires
            old(self).wf(),
        ensures
            final(self).wf(),
            (*final(self), r) == old(self).review_op(ts, accept),
    {
        if !accept {
            return Ok(false);
        }
        if self.state != Some(State::FirstPaymentSent) {
            return Err(Error::PreconditionNotMet);
        }
        self.meeting = Some(Meeting { ts });
        Ok(true)
    }

    /// Pays the remainder at time `now`: fails `MeetingNotAccepted` without
    /// an acceptance and `MeetingNotYetOccurred` unless its time is before
    /// `now`; otherwise moves to `RestOfPaymentSent`, makes the buyer
    /// custodian, clears the acceptance and returns `amount - first_payment`,
    /// owed by buyer to seller.
    pub fn transfer_rest_of_payment(&mut self, now: u64) -> (r: Result<i128, Error>)
        requires
            old(self).wf(),
        ensures
            final(self).wf(),
            (*final(self), r) == old(self).transfer_rest_op(now),
    {
        match &self.meeting {
            None => {
                return Err(Error::MeetingNotAccepted);
            },
            Some(m) => {
                if !m.is_meeting_taking_place(now) {
                    return Err(Error::MeetingNotYetOccurred);
                }
            },
        }
        let rest: i128 = match &self.trading {
            Some(t) => t.amount - t.first_payment,
            None => {
                return Err(Error::NotFound);
            },
        };
        self.state = Some(State::RestOfPaymentSent);
        self.custodian = Some(Party::Buyer);
        self.meeting = None;
        Ok(rest)
    }

    /// The agreement's terms, or `NotFound` where none was created.
    pub fn purchase_trading(&self) -> (r: Result<&PurchaseTrading<A, K>, Error>)
        ensures
            match self.trading {
                Some(t) => r == Ok::<&PurchaseTrading<A, K>, Error>(&t),
                None => r == Err::<&PurchaseTrading<A, K>, Error>(Error::NotFound),
            },
    {
        match &self.trading {
            Some(t) => Ok(t),
            None => Err(Error::NotFound),
        }
    }

    /// The lifecycle state; `None` where no agreement was created.
    pub fn current_state(&self) -> (r: Option<State>)
        ensures
            r == self.state,
    {
        self.state
    }

    /// The identity of the custodian, the seller or the buyer of the agreement.
    pub fn custodian_identity(&self) -> (r: Option<&A>)
        requires
            self.wf(),
        ensures
            match self.custodian {
                Some(Party::Seller) => r == Some(&self.trading->0.seller),
                Some(Party::Buyer) => r == Some(&self.trading->0.buyer),
                None => r is None,
            },
    {
        match (&self.trading, self.custodian) {
            (Some(t), Some(Party::Seller)) => Some(&t.seller),
            (Some(t), Some(Party::Buyer)) => Some(&t.buyer),
            _ => None,
        }
    }
}

} // verus!
