use vstd::prelude::*;

verus! {

/// Ledger units that stand for one day of ledger advancement; the acceptance
/// record's retention extension is measured against it.
pub const DAY_BUMP_AMOUNT: u32 = 17280;

/// Retention horizon given to the agreement record on every write (sixty days).
pub const PURCHASE_DATA_TTL: u32 = 1036800;

/// Why a call on the agreement was refused.
#[derive(Copy, Clone, Debug, PartialEq, Eq, Structural, PartialOrd, Ord)]
pub enum Error {
    /// The deposit is negative, or not strictly below the total price.
    InvalidInstallment,
    /// A meeting acceptance is already on record.
    AlreadyAccepted,
    /// The accepted meeting time has not passed yet.
    MeetingNotYetOccurred,
    /// No meeting acceptance is on record.
    MeetingNotAccepted,
    /// No agreement has been created.
    NotFound,
    /// The proposed meeting time is not in the future.
    InvalidSchedule,
    /// The agreement is not in the lifecycle state that the call needs.
    PreconditionNotMet,
    /// An agreement has already been created on this instance.
    AlreadyInitialized,
}

/// Phase of the deal; it only moves forward.
#[derive(Copy, Clone, Debug, PartialEq, Eq, Structural)]
pub enum State {
    WaitingFirstPayment,
    FirstPaymentSent,
    RestOfPaymentSent,
}

/// Which party currently holds the traded record.
#[derive(Copy, Clone, Debug, PartialEq, Eq, Structural)]
pub enum Party {
    Seller,
    Buyer,
}

/// The deal terms, fixed once created. `A` is a party or asset identity,
/// `K` the application's reference tag.
pub struct PurchaseTrading<A, K> {
    pub amount: i128,
    pub first_payment: i128,
    pub token: A,
    pub key: K,
    pub seller: A,
    pub buyer: A,
}

/// An accepted meeting, at time `ts`.
#[derive(Copy, Clone, Debug, PartialEq, Eq, Structural)]
pub struct Meeting {
    pub ts: u64,
}

impl Meeting {
    /// The meeting has taken place once the current time is strictly past it.
    pub fn is_meeting_taking_place(&self, current_ts: u64) -> (r: bool)
        ensures
            r == (self.ts < current_ts),
    {
        self.ts < current_ts
    }
}

/// Whole hours from `now` until `ts`; zero when `ts` is not after `now`.
pub open spec fn hours_until(ts: u64, now: u64) -> int {
    if ts > now {
        (ts - now) / 3600
    } else {
        0
    }
}

/// Retention extension of an acceptance record for a meeting at `ts`, seen at `now`.
pub open spec fn retention_extension(ts: u64, now: u64) -> int {
    hours_until(ts, now) / (DAY_BUMP_AMOUNT as int) + (DAY_BUMP_AMOUNT as int) / 2
}

/// How far to extend the acceptance record's retention beyond the store's
/// default: `None` where the extension is zero, else the extension, capped at
/// the largest `u32`.
pub fn meeting_retention_bump(ts: u64, now: u64) -> (r: Option<u32>)
    ensures
        retention_extension(ts, now) == 0 <==> r is None,
        r matches Some(b) ==> b as int == if retention_extension(ts, now) > u32::MAX {
            u32::MAX as int
        } else {
            retention_extension(ts, now)
        },
{
    let hours: u64 = if ts > now {
        (ts - now) / 3600
    } else {
        0
    };
    let ext: u64 = hours / (DAY_BUMP_AMOUNT as u64) + (DAY_BUMP_AMOUNT as u64) / 2;
    if ext == 0 {
        None
    } else if ext > u32::MAX as u64 {
        Some(u32::MAX)
    } else {
        Some(ext as u32)
    }
}

} // verus!
