use freelance_escrow::auth::{
    create_payment_authorization, freeze_authorization, process_milestone_payment,
    revoke_authorization, update_authorization, PaymentAuthorization,
};
use freelance_escrow::errors::ErrorCode;
use freelance_escrow::party::PartyId;

fn party(n: u64) -> PartyId {
    PartyId::from_words(n, 0, 0, 0)
}

fn client() -> PartyId {
    party(2)
}

fn freelancer() -> PartyId {
    party(1)
}

fn admin() -> PartyId {
    party(9)
}

fn fresh_auth(max_per_milestone: u64, total_authorized: u64) -> PaymentAuthorization {
    create_payment_authorization(
        "c-1".to_string(),
        client(),
        freelancer(),
        max_per_milestone,
        total_authorized,
        50,
        false,
    )
    .unwrap()
}

#[test]
fn create_authorization_initializes_record() {
    let a = fresh_auth(100, 500);
    assert_eq!(a.client, client());
    assert_eq!(a.contract_id, "c-1");
    assert_eq!(a.freelancer, freelancer());
    assert_eq!(a.max_per_milestone, 100);
    assert_eq!(a.total_authorized, 500);
    assert_eq!(a.total_spent, 0);
    assert!(a.is_active);
    assert_eq!(a.authorized_at, 50);
}

#[test]
fn create_authorization_rejects_zero_cap() {
    let r = create_payment_authorization(
        "c-1".to_string(),
        client(),
        freelancer(),
        0,
        500,
        50,
        false,
    );
    assert_eq!(r.unwrap_err(), ErrorCode::InvalidAmount);
}

#[test]
fn create_authorization_rejects_zero_total() {
    let r = create_payment_authorization(
        "c-1".to_string(),
        client(),
        freelancer(),
        100,
        0,
        50,
        false,
    );
    assert_eq!(r.unwrap_err(), ErrorCode::InvalidAmount);
}

#[test]
fn create_authorization_rejects_cap_above_total() {
    let r = create_payment_authorization(
        "c-1".to_string(),
        client(),
        freelancer(),
        600,
        500,
        50,
        false,
    );
    assert_eq!(r.unwrap_err(), ErrorCode::ExceedsTotal);
}

#[test]
fn create_authorization_rejects_taken_key() {
    let r = create_payment_authorization(
        "c-1".to_string(),
        client(),
        freelancer(),
        100,
        500,
        50,
        true,
    );
    assert_eq!(r.unwrap_err(), ErrorCode::DuplicateContract);
}

#[test]
fn payments_spend_down_to_the_total_and_no_further() {
    let mut a = fresh_auth(100, 500);
    let over = process_milestone_payment(&a, client(), freelancer(), 150);
    assert_eq!(over.unwrap_err(), ErrorCode::ExceedsPerMilestone);
    for i in 1..=5u64 {
        a = process_milestone_payment(&a, client(), freelancer(), 100).unwrap();
        assert_eq!(a.total_spent, 100 * i);
    }
    assert_eq!(a.total_spent, 500);
    let sixth = process_milestone_payment(&a, client(), freelancer(), 1);
    assert_eq!(sixth.unwrap_err(), ErrorCode::ExceedsTotal);
}

#[test]
fn payment_rejects_zero_amount() {
    let a = fresh_auth(100, 500);
    let r = process_milestone_payment(&a, client(), freelancer(), 0);
    assert_eq!(r.unwrap_err(), ErrorCode::InvalidAmount);
}

#[test]
fn payment_rejects_inactive_authorization() {
    let a = fresh_auth(100, 500);
    let revoked = revoke_authorization(&a, client()).unwrap();
    let r = process_milestone_payment(&revoked, client(), freelancer(), 50);
    assert_eq!(r.unwrap_err(), ErrorCode::AuthorizationInactive);
}

#[test]
fn payment_rejects_wrong_client() {
    let a = fresh_auth(100, 500);
    let r = process_milestone_payment(&a, party(7), freelancer(), 50);
    assert_eq!(r.unwrap_err(), ErrorCode::UnauthorizedClient);
}

#[test]
fn payment_rejects_wrong_freelancer() {
    let a = fresh_auth(100, 500);
    let r = process_milestone_payment(&a, client(), party(7), 50);
    assert_eq!(r.unwrap_err(), ErrorCode::UnauthorizedFreelancer);
}

#[test]
fn revoke_rejects_wrong_client() {
    let a = fresh_auth(100, 500);
    let r = revoke_authorization(&a, party(7));
    assert_eq!(r.unwrap_err(), ErrorCode::UnauthorizedClient);
}

#[test]
fn revoke_twice_is_a_safe_no_op() {
    let a = fresh_auth(100, 500);
    let once = revoke_authorization(&a, client()).unwrap();
    assert!(!once.is_active);
    let twice = revoke_authorization(&once, client()).unwrap();
    assert_eq!(twice.client, once.client);
    assert_eq!(twice.contract_id, once.contract_id);
    assert_eq!(twice.freelancer, once.freelancer);
    assert_eq!(twice.max_per_milestone, once.max_per_milestone);
    assert_eq!(twice.total_authorized, once.total_authorized);
    assert_eq!(twice.total_spent, once.total_spent);
    assert_eq!(twice.is_active, once.is_active);
    assert_eq!(twice.authorized_at, once.authorized_at);
}

#[test]
fn update_rejects_wrong_client() {
    let a = fresh_auth(100, 500);
    let r = update_authorization(&a, party(7), Some(50), None);
    assert_eq!(r.unwrap_err(), ErrorCode::UnauthorizedClient);
}

#[test]
fn update_rejects_inactive_authorization() {
    let a = fresh_auth(100, 500);
    let revoked = revoke_authorization(&a, client()).unwrap();
    let r = update_authorization(&revoked, client(), Some(50), None);
    assert_eq!(r.unwrap_err(), ErrorCode::AuthorizationInactive);
}

#[test]
fn update_rejects_zero_cap() {
    let a = fresh_auth(100, 500);
    let r = update_authorization(&a, client(), Some(0), None);
    assert_eq!(r.unwrap_err(), ErrorCode::InvalidAmount);
}

#[test]
fn update_rejects_cap_above_remaining_headroom() {
    let mut a = fresh_auth(100, 500);
    for _ in 0..4 {
        a = process_milestone_payment(&a, client(), freelancer(), 100).unwrap();
    }
    let r = update_authorization(&a, client(), Some(150), None);
    assert_eq!(r.unwrap_err(), ErrorCode::ExceedsTotal);
    let ok = update_authorization(&a, client(), Some(100), None).unwrap();
    assert_eq!(ok.max_per_milestone, 100);
}

#[test]
fn update_rejects_zero_addition() {
    let a = fresh_auth(100, 500);
    let r = update_authorization(&a, client(), None, Some(0));
    assert_eq!(r.unwrap_err(), ErrorCode::InvalidAmount);
}

#[test]
fn update_rejects_total_overflow() {
    let a = fresh_auth(100, u64::MAX - 10);
    let r = update_authorization(&a, client(), None, Some(11));
    assert_eq!(r.unwrap_err(), ErrorCode::ArithmeticOverflow);
}

#[test]
fn update_applies_both_fields_and_judges_cap_against_old_headroom() {
    let mut a = fresh_auth(100, 500);
    for _ in 0..4 {
        a = process_milestone_payment(&a, client(), freelancer(), 100).unwrap();
    }
    let r = update_authorization(&a, client(), Some(150), Some(1000));
    assert_eq!(r.unwrap_err(), ErrorCode::ExceedsTotal);
    let ok = update_authorization(&a, client(), Some(80), Some(1000)).unwrap();
    assert_eq!(ok.max_per_milestone, 80);
    assert_eq!(ok.total_authorized, 1500);
    assert_eq!(ok.total_spent, 400);
}

#[test]
fn update_with_nothing_to_change_still_succeeds() {
    let a = fresh_auth(100, 500);
    let same = update_authorization(&a, client(), None, None).unwrap();
    assert_eq!(same.max_per_milestone, 100);
    assert_eq!(same.total_authorized, 500);
    assert_eq!(same.total_spent, 0);
    assert!(same.is_active);
}

#[test]
fn freeze_rejects_anyone_but_the_administrator() {
    let a = fresh_auth(100, 500);
    let r = freeze_authorization(&a, client(), admin());
    assert_eq!(r.unwrap_err(), ErrorCode::UnauthorizedClient);
}

#[test]
fn freeze_by_administrator_deactivates_and_is_idempotent() {
    let a = fresh_auth(100, 500);
    let frozen = freeze_authorization(&a, admin(), admin()).unwrap();
    assert!(!frozen.is_active);
    let again = freeze_authorization(&frozen, admin(), admin()).unwrap();
    assert!(!again.is_active);
    assert_eq!(again.total_spent, frozen.total_spent);
}
