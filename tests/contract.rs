use house_purchase::contract::HousePurchaseContract;
use house_purchase::data::{
    meeting_retention_bump, Error, Meeting, Party, State, DAY_BUMP_AMOUNT, PURCHASE_DATA_TTL,
};

const BUYER: u64 = 1;
const SELLER: u64 = 2;
const TOKEN: u64 = 3;
const KEY: &str = "256997415";

fn created(first_payment: i128, amount: i128) -> HousePurchaseContract<u64, &'static str> {
    let mut c = HousePurchaseContract::new();
    assert_eq!(c.real_state_trading(BUYER, SELLER, TOKEN, first_payment, amount, KEY), Ok(true));
    c
}

fn deposit_paid() -> HousePurchaseContract<u64, &'static str> {
    let mut c = created(5000, 40000);
    assert_eq!(c.transfer_first_payment(), Ok(5000));
    c
}

#[test]
fn test_success() {
    let now: u64 = 12345;
    let mut c = created(5000, 40000);
    assert_eq!(c.transfer_first_payment(), Ok(5000));
    assert_eq!(c.seller_propose_meeting(12349, now), Ok(true));
    assert_eq!(c.buyer_review_meeting(12349, true), Ok(true));
    assert_eq!(c.meeting, Some(Meeting { ts: 12349 }));
    let now: u64 = 12354;
    assert_eq!(c.transfer_rest_of_payment(now), Ok(35000));
    assert_eq!(c.current_state(), Some(State::RestOfPaymentSent));
    assert_eq!(c.custodian, Some(Party::Buyer));
    assert_eq!(c.custodian_identity(), Some(&BUYER));
    assert_eq!(c.meeting, None);
}

#[test]
fn test_first_payment_greather_or_equal_amount() {
    let mut c: HousePurchaseContract<u64, &str> = HousePurchaseContract::new();
    assert_eq!(
        c.real_state_trading(BUYER, SELLER, TOKEN, 40000, 40000, KEY),
        Err(Error::InvalidInstallment)
    );
    assert!(c.trading.is_none());
}

#[test]
fn test_propose_meeting_without_having_sent_first_payment() {
    let c = created(5000, 40000);
    assert_eq!(c.seller_propose_meeting(12349, 0), Err(Error::PreconditionNotMet));
}

#[test]
fn test_meeting_cannot_be_proposed_before_current_date() {
    let c = deposit_paid();
    assert_eq!(c.seller_propose_meeting(12341, 12345), Err(Error::InvalidSchedule));
}

#[test]
fn test_meeting_already_accepted() {
    let mut c = deposit_paid();
    assert_eq!(c.seller_propose_meeting(12347, 12345), Ok(true));
    assert_eq!(c.buyer_review_meeting(12347, true), Ok(true));
    assert_eq!(c.seller_propose_meeting(12348, 12345), Err(Error::AlreadyAccepted));
}

#[test]
fn test_transfer_rest_of_payment_before_meeting() {
    let mut c = deposit_paid();
    assert_eq!(c.seller_propose_meeting(12347, 12345), Ok(true));
    assert_eq!(c.buyer_review_meeting(12347, true), Ok(true));
    assert_eq!(c.transfer_rest_of_payment(12345), Err(Error::MeetingNotYetOccurred));
    assert_eq!(c.current_state(), Some(State::FirstPaymentSent));
}

#[test]
fn test_transfer_rest_of_payment_without_meeting_accepted() {
    let mut c = deposit_paid();
    assert_eq!(c.seller_propose_meeting(12347, 12345), Ok(true));
    assert_eq!(c.transfer_rest_of_payment(12345), Err(Error::MeetingNotAccepted));
}

#[test]
fn test_transfer_first_payment_with_no_purchase_data_stored() {
    let mut c: HousePurchaseContract<u64, &str> = HousePurchaseContract::new();
    assert_eq!(c.transfer_first_payment(), Err(Error::NotFound));
    assert_eq!(c.current_state(), None);
}

#[test]
fn create_refuses_deposit_above_price() {
    let mut c: HousePurchaseContract<u64, &str> = HousePurchaseContract::new();
    assert_eq!(
        c.real_state_trading(BUYER, SELLER, TOKEN, 40001, 40000, KEY),
        Err(Error::InvalidInstallment)
    );
}

#[test]
fn create_refuses_negative_deposit() {
    let mut c: HousePurchaseContract<u64, &str> = HousePurchaseContract::new();
    assert_eq!(
        c.real_state_trading(BUYER, SELLER, TOKEN, -1, i128::MAX, KEY),
        Err(Error::InvalidInstallment)
    );
    assert_eq!(c.purchase_trading().err(), Some(Error::NotFound));
}

#[test]
fn create_accepts_zero_deposit() {
    let mut c = created(0, 1);
    assert_eq!(c.transfer_first_payment(), Ok(0));
}

#[test]
fn create_records_terms_and_seller_custodian() {
    let c = created(5000, 40000);
    let t = c.purchase_trading().unwrap();
    assert_eq!((t.amount, t.first_payment), (40000, 5000));
    assert_eq!((t.buyer, t.seller, t.token, t.key), (BUYER, SELLER, TOKEN, KEY));
    assert_eq!(c.current_state(), Some(State::WaitingFirstPayment));
    assert_eq!(c.custodian_identity(), Some(&SELLER));
}

#[test]
fn second_create_refused_and_terms_kept() {
    let mut c = created(5000, 40000);
    assert_eq!(
        c.real_state_trading(7, 8, 9, 1, 2, "other"),
        Err(Error::AlreadyInitialized)
    );
    let t = c.purchase_trading().unwrap();
    assert_eq!((t.amount, t.first_payment, t.buyer, t.key), (40000, 5000, BUYER, KEY));
}

#[test]
fn create_then_pay_moves_deposit() {
    let mut c = created(5000, 40000);
    assert_eq!(c.transfer_first_payment(), Ok(5000));
    assert_eq!(c.current_state(), Some(State::FirstPaymentSent));
}

#[test]
fn deposit_cannot_be_paid_twice() {
    let mut c = deposit_paid();
    assert_eq!(c.transfer_first_payment(), Err(Error::PreconditionNotMet));
    assert_eq!(c.current_state(), Some(State::FirstPaymentSent));
}

#[test]
fn propose_at_current_time_refused() {
    let c = deposit_paid();
    assert_eq!(c.seller_propose_meeting(12345, 12345), Err(Error::InvalidSchedule));
}

#[test]
fn propose_without_agreement_refused() {
    let c: HousePurchaseContract<u64, &str> = HousePurchaseContract::new();
    assert_eq!(c.seller_propose_meeting(12349, 12345), Err(Error::PreconditionNotMet));
}

#[test]
fn refusal_records_nothing_and_later_proposal_succeeds() {
    let mut c = deposit_paid();
    assert_eq!(c.buyer_review_meeting(12347, false), Ok(false));
    assert_eq!(c.meeting, None);
    assert_eq!(c.seller_propose_meeting(12350, 12345), Ok(true));
}

#[test]
fn acceptance_before_deposit_refused() {
    let mut c = created(5000, 40000);
    assert_eq!(c.buyer_review_meeting(12347, true), Err(Error::PreconditionNotMet));
    assert_eq!(c.meeting, None);
}

#[test]
fn remainder_time_gate() {
    let mut c = deposit_paid();
    assert_eq!(c.buyer_review_meeting(20000, true), Ok(true));
    assert_eq!(c.transfer_rest_of_payment(19999), Err(Error::MeetingNotYetOccurred));
    assert_eq!(c.transfer_rest_of_payment(20000), Err(Error::MeetingNotYetOccurred));
    assert_eq!(c.transfer_rest_of_payment(20001), Ok(35000));
    assert_eq!(c.transfer_rest_of_payment(20002), Err(Error::MeetingNotAccepted));
}

#[test]
fn no_acceptance_after_the_deal_ends() {
    let mut c = deposit_paid();
    assert_eq!(c.buyer_review_meeting(12346, true), Ok(true));
    assert_eq!(c.transfer_rest_of_payment(12347), Ok(35000));
    assert_eq!(c.buyer_review_meeting(12348, true), Err(Error::PreconditionNotMet));
    assert_eq!(c.seller_propose_meeting(12349, 12347), Err(Error::PreconditionNotMet));
}

#[test]
fn meeting_taking_place_is_strict() {
    let m = Meeting { ts: 100 };
    assert!(!m.is_meeting_taking_place(99));
    assert!(!m.is_meeting_taking_place(100));
    assert!(m.is_meeting_taking_place(101));
}

#[test]
fn retention_bump_values() {
    assert_eq!(DAY_BUMP_AMOUNT, 17280);
    assert_eq!(PURCHASE_DATA_TTL, 1036800);
    assert_eq!(meeting_retention_bump(12349, 12345), Some(8640));
    assert_eq!(meeting_retention_bump(12345, 12349), Some(8640));
    let three_units: u64 = 3600 * 17280 * 3;
    assert_eq!(meeting_retention_bump(1000 + three_units, 1000), Some(8643));
    assert_eq!(meeting_retention_bump(1000 + three_units - 1, 1000), Some(8642));
    assert_eq!(meeting_retention_bump(u64::MAX, 0), Some(u32::MAX));
}

#[test]
fn well_formedness_of_stored_state() {
    let mut c = deposit_paid();
    assert!(c.is_well_formed());
    assert_eq!(c.buyer_review_meeting(12347, true), Ok(true));
    assert!(c.is_well_formed());
    c.state = Some(State::WaitingFirstPayment);
    assert!(!c.is_well_formed());
    let mut fresh: HousePurchaseContract<u64, &str> = HousePurchaseContract::new();
    assert!(fresh.is_well_formed());
    fresh.meeting = Some(Meeting { ts: 1 });
    assert!(!fresh.is_well_formed());
}

#[test]
fn second_create_with_negative_deposit_refused_as_initialized() {
    let mut c = created(5000, 40000);
    assert_eq!(c.real_state_trading(7, 8, 9, -1, 5, "other"), Err(Error::AlreadyInitialized));
    assert_eq!(c.purchase_trading().unwrap().first_payment, 5000);
}
