use vstd::prelude::*;

use crate::amount_guard::checked_add_u64;
use crate::amount_guard::within_limit;
use crate::errors::ErrorCode;
use crate::party::PartyId;

verus! {

/// The abstract state of one payment authorization record.
#[verifier::ext_equal]
pub ghost struct AuthView {
    pub client: PartyId,
    pub contract_id: Seq<char>,
    pub freelancer: PartyId,
    pub max_per_milestone: u64,
    pub total_authorized: u64,
    pub total_spent: u64,
    pub is_active: bool,
    pub authorized_at: i64,
}

impl AuthView {
    /// Well-formedness of an authorization record. Constructors establish it
    /// and every transition preserves it: both limits are positive, the
    /// per-payment cap never exceeds the authorized total, and cumulative
    /// spending never exceeds the authorized total.
    pub open spec fn wf(self) -> bool {
        &&& self.max_per_milestone > 0
        &&& self.total_authorized > 0
        &&& self.max_per_milestone <= self.total_authorized
        &&& self.total_spent <= self.total_authorized
    }
}

/// A standing, limit-bounded permission letting a freelancer be paid
/// directly, without per-payment re-approval. Keyed by
/// `(client, contract_id)` in the caller's record store; independent of any
/// escrow pool under the same contract id.
#[derive(Clone, Debug)]
pub struct PaymentAuthorization {
    pub client: PartyId,
    pub contract_id: String,
    pub freelancer: PartyId,
    pub max_per_milestone: u64,
    pub total_authorized: u64,
    pub total_spent: u64,
    pub is_active: bool,
    pub authorized_at: i64,
}

impl View for PaymentAuthorization {
    type V = AuthView;

    open spec fn view(&self) -> AuthView {
        AuthView {
            client: self.client,
            contract_id: self.contract_id@,
            freelancer: self.freelancer,
            max_per_milestone: self.max_per_milestone,
            total_authorized: self.total_authorized,
            total_spent: self.total_spent,
            is_active: self.is_active,
            authorized_at: self.authorized_at,
        }
    }
}

/// The creation transition. Both limits must be positive, the per-payment
/// cap must fit under the total, and a taken key is rejected. The new record
/// starts active with nothing spent.
pub open spec fn create_payment_authorization_spec(
    contract_id: Seq<char>,
    client: PartyId,
    freelancer: PartyId,
    max_per_milestone: u64,
    total_authorized: u64,
    now: i64,
    key_exists: bool,
) -> Result<AuthView, ErrorCode> {
    if max_per_milestone == 0 {
        Err(ErrorCode::InvalidAmount)
    } else if total_authorized == 0 {
        Err(ErrorCode::InvalidAmount)
    } else if max_per_milestone > total_authorized {
        Err(ErrorCode::ExceedsTotal)
    } else if key_exists {
        Err(ErrorCode::DuplicateContract)
    } else {
        Ok(
            AuthView {
                client,
                contract_id,
                freelancer,
                max_per_milestone,
                total_authorized,
                total_spent: 0,
                is_active: true,
                authorized_at: now,
            },
        )
    }
}

/// Records a new payment authorization. `key_exists` is the record store's
/// answer to whether `(client, contract_id)` is already taken; re-creation
/// at a taken key is rejected rather than allowed to overwrite. No funds
/// move.
pub fn create_payment_authorization(
    contract_id: String,
    client: PartyId,
    freelancer: PartyId,
    max_per_milestone: u64,
    total_authorized: u64,
    now: i64,
    key_exists: bool,
) -> (r: Result<PaymentAuthorization, ErrorCode>)
    ensures
        r matches Ok(a) ==> create_payment_authorization_spec(
            contract_id@,
            client,
            freelancer,
            max_per_milestone,
            total_authorized,
            now,
            key_exists,
        ) == Ok::<AuthView, ErrorCode>(a@) && a@.wf(),
        r matches Err(e) ==> create_payment_authorization_spec(
            contract_id@,
            client,
            freelancer,
            max_per_milestone,
            total_authorized,
            now,
            key_exists,
        ) == Err::<AuthView, ErrorCode>(e),
{
    if max_per_milestone == 0 {
        return Err(ErrorCode::InvalidAmount);
    }
    if total_authorized == 0 {
        return Err(ErrorCode::InvalidAmount);
    }
    if max_per_milestone > total_authorized {
        return Err(ErrorCode::ExceedsTotal);
    }
    if key_exists {
        return Err(ErrorCode::DuplicateContract);
    }
    let ghost id_view = contract_id@;
    let a = PaymentAuthorization {
        client,
        contract_id,
        freelancer,
        max_per_milestone,
        total_authorized,
        total_spent: 0,
        is_active: true,
        authorized_at: now,
    };
    proof {
        let v = create_payment_authorization_spec(
            id_view,
            client,
            freelancer,
            max_per_milestone,
            total_authorized,
            now,
            key_exists,
        )->Ok_0;
        assert(a@ =~= v);
    }
    Ok(a)
}

/// The payment transition. The authorization must be active; the amount
/// must be positive, within the per-payment cap, and within what remains of
/// the authorized total; and both presented parties must match the stored
/// ones. On success cumulative spending grows by exactly the amount paid.
pub open spec fn process_milestone_payment_spec(
    a: AuthView,
    client: PartyId,
    freelancer: PartyId,
    amount: u64,
) -> Result<AuthView, ErrorCode> {
    if !a.is_active {
        Err(ErrorCode::AuthorizationInactive)
    } else if amount == 0 {
        Err(ErrorCode::InvalidAmount)
    } else if amount > a.max_per_milestone {
        Err(ErrorCode::ExceedsPerMilestone)
    } else if a.total_spent + amount > a.total_authorized {
        Err(ErrorCode::ExceedsTotal)
    } else if client != a.client {
        Err(ErrorCode::UnauthorizedClient)
    } else if freelancer != a.freelancer {
        Err(ErrorCode::UnauthorizedFreelancer)
    } else {
        Ok(AuthView { total_spent: (a.total_spent + amount) as u64, ..a })
    }
}

/// Spends one bounded payment against the authorization. `client` and
/// `freelancer` are the parties the caller's authentication layer has
/// proven. On success the caller must move `amount` directly from the client
/// to the freelancer, and persist the returned record only once that
/// transfer has succeeded. A rejected payment commits nothing.
pub fn process_milestone_payment(
    auth: &PaymentAuthorization,
    client: PartyId,
    freelancer: PartyId,
    amount: u64,
) -> (r: Result<PaymentAuthorization, ErrorCode>)
    requires
        auth@.wf(),
    ensures
        r matches Ok(a2) ==> process_milestone_payment_spec(auth@, client, freelancer, amount)
            == Ok::<AuthView, ErrorCode>(a2@) && a2@.wf(),
        r matches Ok(a2) ==> a2@.total_spent == auth@.total_spent + amount && a2@.total_spent
            <= a2@.total_authorized,
        r matches Err(e) ==> process_milestone_payment_spec(auth@, client, freelancer, amount)
            == Err::<AuthView, ErrorCode>(e),
{
    if !auth.is_active {
        return Err(ErrorCode::AuthorizationInactive);
    }
    if amount == 0 {
        return Err(ErrorCode::InvalidAmount);
    }
    if amount > auth.max_per_milestone {
        return Err(ErrorCode::ExceedsPerMilestone);
    }
    if !within_limit(auth.total_spent, amount, auth.total_authorized) {
        return Err(ErrorCode::ExceedsTotal);
    }
    if client != auth.client {
        return Err(ErrorCode::UnauthorizedClient);
    }
    if freelancer != auth.freelancer {
        return Err(ErrorCode::UnauthorizedFreelancer);
    }
    let a2 = PaymentAuthorization {
        contract_id: auth.contract_id.clone(),
        total_spent: auth.total_spent + amount,
        ..*auth
    };
    proof {
        assert(a2@ =~= process_milestone_payment_spec(auth@, client, freelancer, amount)->Ok_0);
    }
    Ok(a2)
}

/// The revocation transition. Only the stored client may revoke. Revocation
/// is idempotent: revoking an already-inactive authorization succeeds and
/// changes nothing.
pub open spec fn revoke_authorization_spec(a: AuthView, client: PartyId) -> Result<
    AuthView,
    ErrorCode,
> {
    if client != a.client {
        Err(ErrorCode::UnauthorizedClient)
    } else {
        Ok(AuthView { is_active: false, ..a })
    }
}

/// Deactivates the authorization at its client's request. No reactivation
/// operation exists, so a revocation is final. No funds move.
pub fn revoke_authorization(auth: &PaymentAuthorization, client: PartyId) -> (r: Result<
    PaymentAuthorization,
    ErrorCode,
>)
    ensures
        r matches Ok(a2) ==> revoke_authorization_spec(auth@, client) == Ok::<
            AuthView,
            ErrorCode,
        >(a2@) && !a2@.is_active,
        r matches Ok(a2) ==> auth@.wf() ==> a2@.wf(),
        r matches Ok(a2) ==> a2@.total_spent == auth@.total_spent && a2@.total_authorized
            == auth@.total_authorized,
        r matches Err(e) ==> revoke_authorization_spec(auth@, client) == Err::<
            AuthView,
            ErrorCode,
        >(e),
{
    if client != auth.client {
        return Err(ErrorCode::UnauthorizedClient);
    }
    let a2 = PaymentAuthorization {
        contract_id: auth.contract_id.clone(),
        is_active: false,
        ..*auth
    };
    proof {
        assert(a2@ =~= revoke_authorization_spec(auth@, client)->Ok_0);
    }
    Ok(a2)
}

/// The update transition. Only the stored client may update, and only while
/// the authorization is active. A new per-payment cap must be positive and
/// fit within the headroom left under the old total; an added authorization
/// must be positive and must not overflow the total. The cap is applied
/// before the addition, so a new cap is judged against the old headroom.
/// Supplying neither field is a no-op that still succeeds.
pub open spec fn update_authorization_spec(
    a: AuthView,
    client: PartyId,
    new_max_per_milestone: Option<u64>,
    additional_authorized: Option<u64>,
) -> Result<AuthView, ErrorCode> {
    if client != a.client {
        Err(ErrorCode::UnauthorizedClient)
    } else if !a.is_active {
        Err(ErrorCode::AuthorizationInactive)
    } else if new_max_per_milestone matches Some(new_max) && new_max == 0 {
        Err(ErrorCode::InvalidAmount)
    } else if new_max_per_milestone matches Some(new_max) && new_max > a.total_authorized
        - a.total_spent {
        Err(ErrorCode::ExceedsTotal)
    } else if additional_authorized matches Some(additional) && additional == 0 {
        Err(ErrorCode::InvalidAmount)
    } else if additional_authorized matches Some(additional) && a.total_authorized + additional
        > u64::MAX {
        Err(ErrorCode::ArithmeticOverflow)
    } else {
        let capped = match new_max_per_milestone {
            Some(new_max) => AuthView { max_per_milestone: new_max, ..a },
            None => a,
        };
        Ok(
            match additional_authorized {
                Some(additional) => AuthView {
                    total_authorized: (capped.total_authorized + additional) as u64,
                    ..capped
                },
                None => capped,
            },
        )
    }
}

/// Adjusts the authorization's limits at its client's request. No funds
/// move.
pub fn update_authorization(
    auth: &PaymentAuthorization,
    client: PartyId,
    new_max_per_milestone: Option<u64>,
    additional_authorized: Option<u64>,
) -> (r: Result<PaymentAuthorization, ErrorCode>)
    requires
        auth@.wf(),
    ensures
        r matches Ok(a2) ==> update_authorization_spec(
            auth@,
            client,
            new_max_per_milestone,
            additional_authorized,
        ) == Ok::<AuthView, ErrorCode>(a2@) && a2@.wf(),
        r matches Ok(a2) ==> a2@.total_spent == auth@.total_spent && a2@.total_authorized
            >= auth@.total_authorized,
        r matches Err(e) ==> update_authorization_spec(
            auth@,
            client,
            new_max_per_milestone,
            additional_authorized,
        ) == Err::<AuthView, ErrorCode>(e),
{
    if client != auth.client {
        return Err(ErrorCode::UnauthorizedClient);
    }
    if !auth.is_active {
        return Err(ErrorCode::AuthorizationInactive);
    }
    let max_per_milestone = match new_max_per_milestone {
        Some(new_max) => {
            if new_max == 0 {
                return Err(ErrorCode::InvalidAmount);
            }
            if new_max > auth.total_authorized - auth.total_spent {
                return Err(ErrorCode::ExceedsTotal);
            }
            new_max
        },
        None => auth.max_per_milestone,
    };
    let total_authorized = match additional_authorized {
        Some(additional) => {
            if additional == 0 {
                return Err(ErrorCode::InvalidAmount);
            }
            match checked_add_u64(auth.total_authorized, additional) {
                Ok(t) => t,
                Err(e) => {
                    return Err(e);
                },
            }
        },
        None => auth.total_authorized,
    };
    let a2 = PaymentAuthorization {
        contract_id: auth.contract_id.clone(),
        max_per_milestone,
        total_authorized,
        ..*auth
    };
    proof {
        assert(a2@ =~= update_authorization_spec(
            auth@,
            client,
            new_max_per_milestone,
            additional_authorized,
        )->Ok_0);
    }
    Ok(a2)
}

/// The freeze transition. Freezing is an administrative emergency stop: the
/// caller must present the administrative identity the deployment was
/// configured with; any other caller is rejected. Like a revocation it is
/// idempotent and final.
pub open spec fn freeze_authorization_spec(
    a: AuthView,
    caller: PartyId,
    admin: PartyId,
) -> Result<AuthView, ErrorCode> {
    if caller != admin {
        Err(ErrorCode::UnauthorizedClient)
    } else {
        Ok(AuthView { is_active: false, ..a })
    }
}

/// Deactivates the authorization by administrative authority. `admin` is the
/// configured administrative identity; `caller` is the identity the caller's
/// authentication layer has proven. No funds move.
pub fn freeze_authorization(auth: &PaymentAuthorization, caller: PartyId, admin: PartyId) -> (r:
    Result<PaymentAuthorization, ErrorCode>)
    ensures
        r matches Ok(a2) ==> freeze_authorization_spec(auth@, caller, admin) == Ok::<
            AuthView,
            ErrorCode,
        >(a2@) && !a2@.is_active,
        r matches Ok(a2) ==> auth@.wf() ==> a2@.wf(),
        r matches Ok(a2) ==> a2@.total_spent == auth@.total_spent && a2@.total_authorized
            == auth@.total_authorized,
        r matches Err(e) ==> freeze_authorization_spec(auth@, caller, admin) == Err::<
            AuthView,
            ErrorCode,
        >(e),
{
    if caller != admin {
        return Err(ErrorCode::UnauthorizedClient);
    }
    let a2 = PaymentAuthorization {
        contract_id: auth.contract_id.clone(),
        is_active: false,
        ..*auth
    };
    proof {
        assert(a2@ =~= freeze_authorization_spec(auth@, caller, admin)->Ok_0);
    }
    Ok(a2)
}

/// In every well-formed authorization, cumulative spending stays within the
/// authorized total, and the escrow-free payment path can therefore never
/// pull more than the client granted.
pub proof fn lemma_spending_within_authorization(a: AuthView)
    requires
        a.wf(),
    ensures
        a.total_spent <= a.total_authorized,
{
}

/// A processed payment preserves well-formedness and only ever increases
/// cumulative spending: `total_spent` is monotone and stays bounded by the
/// authorized total.
pub proof fn lemma_processing_monotone_and_bounded(
    a: AuthView,
    a2: AuthView,
    client: PartyId,
    freelancer: PartyId,
    amount: u64,
)
    requires
        a.wf(),
        process_milestone_payment_spec(a, client, freelancer, amount) == Ok::<
            AuthView,
            ErrorCode,
        >(a2),
    ensures
        a2.wf(),
        a.total_spent <= a2.total_spent,
        a2.total_spent <= a2.total_authorized,
{
    assert(process_milestone_payment_spec(a, client, freelancer, amount)->Ok_0 =~= a2);
}

/// Revocation is idempotent: revoking the record a successful revocation
/// produced succeeds again and returns that record unchanged, rather than
/// failing.
pub proof fn lemma_revoke_idempotent(a: AuthView, a2: AuthView, client: PartyId)
    requires
        revoke_authorization_spec(a, client) == Ok::<AuthView, ErrorCode>(a2),
    ensures
        revoke_authorization_spec(a2, client) == Ok::<AuthView, ErrorCode>(a2),
{
    assert(revoke_authorization_spec(a, client)->Ok_0 =~= a2);
    assert(revoke_authorization_spec(a2, client)->Ok_0 =~= a2);
}

} // verus!
