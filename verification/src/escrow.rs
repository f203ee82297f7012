use vstd::prelude::*;

use crate::amount_guard::checked_add_u64;
use crate::amount_guard::checked_sub_u64;
use crate::errors::ErrorCode;
use crate::party::PartyId;

verus! {

/// The lifecycle of an escrow contract. Transitions only ever move forward:
/// `Created -> Active -> Completed` or `Created -> Active -> Disputed`;
/// `Completed` and `Disputed` are terminal, and no funds move out of a
/// terminal contract.
#[derive(Clone, Copy, PartialEq, Eq, Structural, Debug)]
pub enum ContractStatus {
    Created,
    Active,
    Completed,
    Disputed,
}

/// The abstract state of one escrow contract record.
#[verifier::ext_equal]
pub ghost struct ContractView {
    pub contract_id: Seq<char>,
    pub freelancer: PartyId,
    pub client: PartyId,
    pub total_amount: u64,
    pub milestone_count: u8,
    pub completed_milestones: u8,
    pub amount_released: u64,
    pub escrow_balance: u64,
    pub status: ContractStatus,
    pub dispute_reason: Seq<char>,
    pub created_at: i64,
    pub completed_at: i64,
}

impl ContractView {
    /// The payment owed for each approved milestone: an equal split of the
    /// contract value, truncated toward zero. Any division remainder (dust)
    /// never leaves escrow through approvals.
    pub open spec fn milestone_payment(self) -> int {
        self.total_amount as int / self.milestone_count as int
    }

    /// Well-formedness of a contract record. Constructors establish it and
    /// every transition preserves it. In particular, the amount released so
    /// far is always exactly the number of approved milestones times the
    /// equal split, so releases can never outrun the approvals that earned
    /// them.
    pub open spec fn wf(self) -> bool {
        &&& self.milestone_count > 0
        &&& self.completed_milestones <= self.milestone_count
        &&& self.amount_released == self.completed_milestones as int * self.milestone_payment()
        &&& (self.status == ContractStatus::Completed <==> self.completed_milestones
            == self.milestone_count)
        &&& (self.status == ContractStatus::Created ==> self.escrow_balance == 0)
        &&& (self.status == ContractStatus::Disputed ==> self.escrow_balance == 0)
        &&& (self.status != ContractStatus::Disputed ==> self.dispute_reason.len() == 0)
        &&& (self.status != ContractStatus::Completed ==> self.completed_at == 0)
    }
}

/// One escrow contract record, keyed by `contract_id` in the caller's record
/// store.
#[derive(Clone, Debug)]
pub struct FreelanceContract {
    pub contract_id: String,
    pub freelancer: PartyId,
    pub client: PartyId,
    pub total_amount: u64,
    pub milestone_count: u8,
    pub completed_milestones: u8,
    pub amount_released: u64,
    pub escrow_balance: u64,
    pub status: ContractStatus,
    pub dispute_reason: String,
    pub created_at: i64,
    pub completed_at: i64,
}

impl View for FreelanceContract {
    type V = ContractView;

    open spec fn view(&self) -> ContractView {
        ContractView {
            contract_id: self.contract_id@,
            freelancer: self.freelancer,
            client: self.client,
            total_amount: self.total_amount,
            milestone_count: self.milestone_count,
            completed_milestones: self.completed_milestones,
            amount_released: self.amount_released,
            escrow_balance: self.escrow_balance,
            status: self.status,
            dispute_reason: self.dispute_reason@,
            created_at: self.created_at,
            completed_at: self.completed_at,
        }
    }
}

/// The abstract state of one milestone record.
#[verifier::ext_equal]
pub ghost struct MilestoneView {
    pub contract_id: Seq<char>,
    pub index: u8,
    pub submitted_at: i64,
    pub approved_at: i64,
    pub proof_uri: Seq<char>,
    pub is_approved: bool,
    pub payment_amount: u64,
}

impl MilestoneView {
    /// Well-formedness of a milestone record: approval is the only thing
    /// that ever sets an approval time or a payment amount.
    pub open spec fn wf(self) -> bool {
        !self.is_approved ==> self.approved_at == 0 && self.payment_amount == 0
    }
}

/// One unit of deliverable work under a contract, keyed by
/// `(contract_id, index)` in the caller's record store. Created by the
/// freelancer's submission; approved at most once by the client; never
/// deleted.
#[derive(Clone, Debug)]
pub struct Milestone {
    pub contract_id: String,
    pub index: u8,
    pub submitted_at: i64,
    pub approved_at: i64,
    pub proof_uri: String,
    pub is_approved: bool,
    pub payment_amount: u64,
}

impl View for Milestone {
    type V = MilestoneView;

    open spec fn view(&self) -> MilestoneView {
        MilestoneView {
            contract_id: self.contract_id@,
            index: self.index,
            submitted_at: self.submitted_at,
            approved_at: self.approved_at,
            proof_uri: self.proof_uri@,
            is_approved: self.is_approved,
            payment_amount: self.payment_amount,
        }
    }
}

/// Notification that a deposit was committed.
#[derive(Debug)]
pub struct FundsDeposited {
    pub contract_id: String,
    pub amount: u64,
    pub timestamp: i64,
}

/// Notification that a milestone was submitted.
#[derive(Debug)]
pub struct MilestoneSubmitted {
    pub contract_id: String,
    pub milestone_index: u8,
    pub timestamp: i64,
}

/// Notification that a milestone was approved and its payment released.
#[derive(Debug)]
pub struct MilestoneApproved {
    pub contract_id: String,
    pub milestone_index: u8,
    pub amount: u64,
    pub timestamp: i64,
}

/// Notification that a contract was disputed.
#[derive(Debug)]
pub struct ContractDisputed {
    pub contract_id: String,
    pub reason: String,
    pub timestamp: i64,
}

/// What a successful deposit commits: the updated contract, and the
/// notification to emit after the caller has moved `event.amount` from the
/// client into the escrow pool.
#[derive(Debug)]
pub struct DepositOutcome {
    pub contract: FreelanceContract,
    pub event: FundsDeposited,
}

/// What a successful submission commits: the new milestone record and the
/// notification to emit. No funds move.
#[derive(Debug)]
pub struct SubmitOutcome {
    pub milestone: Milestone,
    pub event: MilestoneSubmitted,
}

/// What a successful approval commits: both updated records, and the
/// notification to emit after the caller has moved `event.amount` from the
/// escrow pool to the freelancer.
#[derive(Debug)]
pub struct ApproveOutcome {
    pub contract: FreelanceContract,
    pub milestone: Milestone,
    pub event: MilestoneApproved,
}

/// What a successful dispute commits: the updated contract, the remaining
/// balance to return to the client, and the notification to emit.
#[derive(Debug)]
pub struct DisputeOutcome {
    pub contract: FreelanceContract,
    pub refund_amount: u64,
    pub event: ContractDisputed,
}

/// The creation transition. A taken key is rejected before anything else; a
/// contract must have at least one milestone. The new record starts with
/// nothing deposited, nothing released, and nothing completed.
pub open spec fn create_contract_spec(
    contract_id: Seq<char>,
    total_amount: u64,
    milestone_count: u8,
    freelancer: PartyId,
    client: PartyId,
    now: i64,
    key_exists: bool,
) -> Result<ContractView, ErrorCode> {
    if key_exists {
        Err(ErrorCode::DuplicateContract)
    } else if milestone_count == 0 {
        Err(ErrorCode::InvalidAmount)
    } else {
        Ok(
            ContractView {
                contract_id,
                freelancer,
                client,
                total_amount,
                milestone_count,
                completed_milestones: 0,
                amount_released: 0,
                escrow_balance: 0,
                status: ContractStatus::Created,
                dispute_reason: Seq::<char>::empty(),
                created_at: now,
                completed_at: 0,
            },
        )
    }
}

/// Records a new escrow contract. `key_exists` is the record store's answer
/// to whether `contract_id` is already taken; re-creation at a taken key is
/// rejected rather than allowed to overwrite. No funds move.
pub fn create_contract(
    contract_id: String,
    total_amount: u64,
    milestone_count: u8,
    freelancer: PartyId,
    client: PartyId,
    now: i64,
    key_exists: bool,
) -> (r: Result<FreelanceContract, ErrorCode>)
    ensures
        r matches Ok(c) ==> create_contract_spec(
            contract_id@,
            total_amount,
            milestone_count,
            freelancer,
            client,
            now,
            key_exists,
        ) == Ok::<ContractView, ErrorCode>(c@) && c@.wf(),
        r matches Err(e) ==> create_contract_spec(
            contract_id@,
            total_amount,
            milestone_count,
            freelancer,
            client,
            now,
            key_exists,
        ) == Err::<ContractView, ErrorCode>(e),
{
    if key_exists {
        Err(ErrorCode::DuplicateContract)
    } else if milestone_count == 0 {
        Err(ErrorCode::InvalidAmount)
    } else {
        let ghost id_view = contract_id@;
        let c = FreelanceContract {
            contract_id,
            freelancer,
            client,
            total_amount,
            milestone_count,
            completed_milestones: 0,
            amount_released: 0,
            escrow_balance: 0,
            status: ContractStatus::Created,
            dispute_reason: String::new(),
            created_at: now,
            completed_at: 0,
        };
        proof {
            let v = create_contract_spec(
                id_view,
                total_amount,
                milestone_count,
                freelancer,
                client,
                now,
                key_exists,
            )->Ok_0;
            assert(c@ =~= v);
        }
        Ok(c)
    }
}

/// The deposit transition. A zero deposit is rejected; a terminal contract
/// accepts no further funds; a deposit that would overflow the pooled
/// balance is an integrity violation. Otherwise the pool grows by `amount`
/// and the contract is active — idempotently so for repeated deposits.
pub open spec fn deposit_funds_spec(c: ContractView, amount: u64) -> Result<
    ContractView,
    ErrorCode,
> {
    if amount == 0 {
        Err(ErrorCode::InvalidAmount)
    } else if c.status == ContractStatus::Completed || c.status == ContractStatus::Disputed {
        Err(ErrorCode::InvalidContractState)
    } else if c.escrow_balance + amount > u64::MAX {
        Err(ErrorCode::ArithmeticOverflow)
    } else {
        Ok(
            ContractView {
                status: ContractStatus::Active,
                escrow_balance: (c.escrow_balance + amount) as u64,
                ..c
            },
        )
    }
}

/// Pools a client deposit into the contract. On success the caller must move
/// `event.amount` from the client to the escrow pool, and persist
/// `o.contract` only once that transfer has succeeded.
pub fn deposit_funds(contract: &FreelanceContract, amount: u64, now: i64) -> (r: Result<
    DepositOutcome,
    ErrorCode,
>)
    requires
        contract@.wf(),
    ensures
        r matches Ok(o) ==> deposit_funds_spec(contract@, amount) == Ok::<
            ContractView,
            ErrorCode,
        >(o.contract@) && o.contract@.wf(),
        r matches Ok(o) ==> o.event.contract_id@ == contract@.contract_id && o.event.amount
            == amount && o.event.timestamp == now,
        r matches Err(e) ==> deposit_funds_spec(contract@, amount) == Err::<
            ContractView,
            ErrorCode,
        >(e),
{
    if amount == 0 {
        return Err(ErrorCode::InvalidAmount);
    }
    if matches!(contract.status, ContractStatus::Completed)
        || matches!(contract.status, ContractStatus::Disputed) {
        return Err(ErrorCode::InvalidContractState);
    }
    let new_balance = match checked_add_u64(contract.escrow_balance, amount) {
        Ok(b) => b,
        Err(e) => {
            return Err(e);
        },
    };
    let updated = FreelanceContract {
        contract_id: contract.contract_id.clone(),
        dispute_reason: contract.dispute_reason.clone(),
        status: ContractStatus::Active,
        escrow_balance: new_balance,
        ..*contract
    };
    let event = FundsDeposited {
        contract_id: contract.contract_id.clone(),
        amount,
        timestamp: now,
    };
    proof {
        assert(updated@ =~= deposit_funds_spec(contract@, amount)->Ok_0);
    }
    Ok(DepositOutcome { contract: updated, event })
}

/// The submission transition. Only an active contract accepts work; the
/// index must name one of the contract's milestones; an index whose record
/// already exists cannot be submitted again. The new record is unapproved
/// and carries the proof of work.
pub open spec fn submit_milestone_spec(
    c: ContractView,
    milestone_index: u8,
    proof_uri: Seq<char>,
    milestone_exists: bool,
    now: i64,
) -> Result<MilestoneView, ErrorCode> {
    if c.status != ContractStatus::Active {
        Err(ErrorCode::ContractNotActive)
    } else if milestone_index >= c.milestone_count {
        Err(ErrorCode::InvalidMilestone)
    } else if milestone_exists {
        Err(ErrorCode::InvalidMilestone)
    } else {
        Ok(
            MilestoneView {
                contract_id: c.contract_id,
                index: milestone_index,
                submitted_at: now,
                approved_at: 0,
                proof_uri,
                is_approved: false,
                payment_amount: 0,
            },
        )
    }
}

/// Records the freelancer's submission of one milestone. `milestone_exists`
/// is the record store's answer to whether `(contract_id, milestone_index)`
/// already holds a record. No funds move.
pub fn submit_milestone(
    contract: &FreelanceContract,
    milestone_index: u8,
    proof_uri: String,
    milestone_exists: bool,
    now: i64,
) -> (r: Result<SubmitOutcome, ErrorCode>)
    requires
        contract@.wf(),
    ensures
        r matches Ok(o) ==> submit_milestone_spec(
            contract@,
            milestone_index,
            proof_uri@,
            milestone_exists,
            now,
        ) == Ok::<MilestoneView, ErrorCode>(o.milestone@) && o.milestone@.wf(),
        r matches Ok(o) ==> o.event.contract_id@ == contract@.contract_id
            && o.event.milestone_index == milestone_index && o.event.timestamp == now,
        r matches Err(e) ==> submit_milestone_spec(
            contract@,
            milestone_index,
            proof_uri@,
            milestone_exists,
            now,
        ) == Err::<MilestoneView, ErrorCode>(e),
{
    if !matches!(contract.status, ContractStatus::Active) {
        return Err(ErrorCode::ContractNotActive);
    }
    if milestone_index >= contract.milestone_count {
        return Err(ErrorCode::InvalidMilestone);
    }
    if milestone_exists {
        return Err(ErrorCode::InvalidMilestone);
    }
    let ghost uri_view = proof_uri@;
    let milestone = Milestone {
        contract_id: contract.contract_id.clone(),
        index: milestone_index,
        submitted_at: now,
        approved_at: 0,
        proof_uri,
        is_approved: false,
        payment_amount: 0,
    };
    let event = MilestoneSubmitted {
        contract_id: contract.contract_id.clone(),
        milestone_index,
        timestamp: now,
    };
    proof {
        assert(milestone@ =~= submit_milestone_spec(
            contract@,
            milestone_index,
            uri_view,
            milestone_exists,
            now,
        )->Ok_0);
    }
    Ok(SubmitOutcome { milestone, event })
}

/// The approval transition. Only an active contract releases funds, so a
/// disputed or completed contract rejects every approval; a milestone is
/// paid at most once; a pool too small to cover the equal split marks prior
/// bookkeeping corruption and is surfaced as an integrity violation. On
/// success the milestone is marked paid, the books move the split from the
/// pool to the released total, and approving the final milestone completes
/// the contract.
pub open spec fn approve_milestone_spec(c: ContractView, m: MilestoneView, now: i64) -> Result<
    (ContractView, MilestoneView),
    ErrorCode,
> {
    if c.status != ContractStatus::Active {
        Err(ErrorCode::ContractNotActive)
    } else if m.is_approved {
        Err(ErrorCode::MilestoneAlreadyApproved)
    } else if c.escrow_balance < c.milestone_payment() {
        Err(ErrorCode::ArithmeticUnderflow)
    } else {
        let payment = c.milestone_payment();
        let completed = (c.completed_milestones + 1) as u8;
        let done = completed == c.milestone_count;
        Ok(
            (
                ContractView {
                    completed_milestones: completed,
                    amount_released: (c.amount_released + payment) as u64,
                    escrow_balance: (c.escrow_balance - payment) as u64,
                    status: if done {
                        ContractStatus::Completed
                    } else {
                        ContractStatus::Active
                    },
                    completed_at: if done {
                        now
                    } else {
                        c.completed_at
                    },
                    ..c
                },
                MilestoneView { is_approved: true, approved_at: now, payment_amount: payment as u64, ..m },
            ),
        )
    }
}

/// Establishes that the equal split is nonnegative and that paying it for
/// every milestone never exceeds the contract value: the division remainder
/// (dust) stays behind.
pub proof fn lemma_split_payment_bounded(total_amount: u64, milestone_count: u8)
    requires
        milestone_count > 0,
    ensures
        0 <= total_amount as int / milestone_count as int,
        milestone_count as int * (total_amount as int / milestone_count as int)
            <= total_amount,
{
    let t = total_amount as int;
    let m = milestone_count as int;
    vstd::arithmetic::div_mod::lemma_fundamental_div_mod(t, m);
    vstd::arithmetic::div_mod::lemma_mod_division_less_than_divisor(t, m);
    vstd::arithmetic::div_mod::lemma_div_pos_is_pos(t, m);
}

/// Releases the payment for one milestone. The milestone must be the
/// contract's own record for its index. On success the caller must move
/// `event.amount` from the escrow pool to the freelancer, and persist
/// `o.contract` and `o.milestone` only once that transfer has succeeded. A
/// rejected approval commits nothing.
pub fn approve_milestone(contract: &FreelanceContract, milestone: &Milestone, now: i64) -> (r:
    Result<ApproveOutcome, ErrorCode>)
    requires
        contract@.wf(),
        milestone@.wf(),
        milestone@.contract_id == contract@.contract_id,
    ensures
        r matches Ok(o) ==> approve_milestone_spec(contract@, milestone@, now) == Ok::<
            (ContractView, MilestoneView),
            ErrorCode,
        >((o.contract@, o.milestone@)) && o.contract@.wf() && o.milestone@.wf(),
        r matches Ok(o) ==> o.contract@.amount_released >= contract@.amount_released
            && o.milestone@.payment_amount == contract@.milestone_payment(),
        r matches Ok(o) ==> o.event.contract_id@ == contract@.contract_id
            && o.event.milestone_index == milestone@.index && o.event.amount
            == contract@.milestone_payment() && o.event.timestamp == now,
        r matches Err(e) ==> approve_milestone_spec(contract@, milestone@, now) == Err::<
            (ContractView, MilestoneView),
            ErrorCode,
        >(e),
{
    if !matches!(contract.status, ContractStatus::Active) {
        return Err(ErrorCode::ContractNotActive);
    }
    if milestone.is_approved {
        return Err(ErrorCode::MilestoneAlreadyApproved);
    }
    let payment = contract.total_amount / (contract.milestone_count as u64);
    let new_balance = match checked_sub_u64(contract.escrow_balance, payment) {
        Ok(b) => b,
        Err(e) => {
            return Err(e);
        },
    };
    proof {
        lemma_split_payment_bounded(contract.total_amount, contract.milestone_count);
        vstd::arithmetic::mul::lemma_mul_inequality(
            contract@.completed_milestones + 1,
            contract@.milestone_count as int,
            contract@.milestone_payment(),
        );
        vstd::arithmetic::mul::lemma_mul_is_distributive_add_other_way(
            contract@.milestone_payment(),
            contract@.completed_milestones as int,
            1,
        );
    }
    let updated_contract = FreelanceContract {
        contract_id: contract.contract_id.clone(),
        dispute_reason: contract.dispute_reason.clone(),
        completed_milestones: contract.completed_milestones + 1,
        amount_released: contract.amount_released + payment,
        escrow_balance: new_balance,
        status: if contract.completed_milestones + 1 == contract.milestone_count {
            ContractStatus::Completed
        } else {
            ContractStatus::Active
        },
        completed_at: if contract.completed_milestones + 1 == contract.milestone_count {
            now
        } else {
            contract.completed_at
        },
        ..*contract
    };
    let updated_milestone = Milestone {
        contract_id: milestone.contract_id.clone(),
        proof_uri: milestone.proof_uri.clone(),
        is_approved: true,
        approved_at: now,
        payment_amount: payment,
        ..*milestone
    };
    let event = MilestoneApproved {
        contract_id: contract.contract_id.clone(),
        milestone_index: milestone.index,
        amount: payment,
        timestamp: now,
    };
    proof {
        let spec_pair = approve_milestone_spec(contract@, milestone@, now)->Ok_0;
        assert(updated_contract@ =~= spec_pair.0);
        assert(updated_milestone@ =~= spec_pair.1);
    }
    Ok(ApproveOutcome { contract: updated_contract, milestone: updated_milestone, event })
}

/// The dispute transition. Only a contract that is active — funded and
/// neither completed nor already disputed — can be disputed. The remaining
/// pool is returned to the client in full, the reason is recorded, and the
/// contract is terminally disputed: every later deposit or approval is
/// rejected.
pub open spec fn dispute_contract_spec(c: ContractView, reason: Seq<char>) -> Result<
    ContractView,
    ErrorCode,
> {
    if c.status != ContractStatus::Active {
        Err(ErrorCode::InvalidContractState)
    } else {
        Ok(
            ContractView {
                escrow_balance: 0,
                status: ContractStatus::Disputed,
                dispute_reason: reason,
                ..c
            },
        )
    }
}

/// Disputes a contract. On success the caller must move `o.refund_amount`
/// (the whole remaining pool, possibly zero) from the escrow pool back to
/// the client, and persist `o.contract` only once that transfer has
/// succeeded.
pub fn dispute_contract(contract: &FreelanceContract, reason: String, now: i64) -> (r: Result<
    DisputeOutcome,
    ErrorCode,
>)
    requires
        contract@.wf(),
    ensures
        r matches Ok(o) ==> dispute_contract_spec(contract@, reason@) == Ok::<
            ContractView,
            ErrorCode,
        >(o.contract@) && o.contract@.wf(),
        r matches Ok(o) ==> o.refund_amount == contract@.escrow_balance,
        r matches Ok(o) ==> o.event.contract_id@ == contract@.contract_id && o.event.reason@
            == reason@ && o.event.timestamp == now,
        r matches Err(e) ==> dispute_contract_spec(contract@, reason@) == Err::<
            ContractView,
            ErrorCode,
        >(e),
{
    if !matches!(contract.status, ContractStatus::Active) {
        return Err(ErrorCode::InvalidContractState);
    }
    let ghost reason_view = reason@;
    let refund_amount = contract.escrow_balance;
    let event = ContractDisputed {
        contract_id: contract.contract_id.clone(),
        reason: reason.clone(),
        timestamp: now,
    };
    let updated = FreelanceContract {
        contract_id: contract.contract_id.clone(),
        escrow_balance: 0,
        status: ContractStatus::Disputed,
        dispute_reason: reason,
        ..*contract
    };
    proof {
        assert(updated@ =~= dispute_contract_spec(contract@, reason_view)->Ok_0);
    }
    Ok(DisputeOutcome { contract: updated, refund_amount, event })
}

/// Once a contract is complete, exactly its milestone count of equal splits
/// has been released — never more than the contract value, the dust staying
/// in escrow.
pub proof fn lemma_completed_contract_released(c: ContractView)
    requires
        c.wf(),
        c.status == ContractStatus::Completed,
    ensures
        c.amount_released == c.milestone_count as int * c.milestone_payment(),
        c.amount_released <= c.total_amount,
{
    lemma_split_payment_bounded(c.total_amount, c.milestone_count);
}

/// Approval is write-once: whatever records a successful approval produced,
/// approving that same milestone again is rejected — as already approved
/// while the contract remains active, or as not active once the contract has
/// completed. The failed call produces no new records.
pub proof fn lemma_second_approval_rejected(
    c: ContractView,
    m: MilestoneView,
    c2: ContractView,
    m2: MilestoneView,
    now1: i64,
    now2: i64,
)
    requires
        approve_milestone_spec(c, m, now1) == Ok::<(ContractView, MilestoneView), ErrorCode>(
            (c2, m2),
        ),
    ensures
        c2.status == ContractStatus::Active ==> approve_milestone_spec(c2, m2, now2) == Err::<
            (ContractView, MilestoneView),
            ErrorCode,
        >(ErrorCode::MilestoneAlreadyApproved),
        c2.status != ContractStatus::Active ==> approve_milestone_spec(c2, m2, now2) == Err::<
            (ContractView, MilestoneView),
            ErrorCode,
        >(ErrorCode::ContractNotActive),
{
}

/// The pool is never overdrawn: the only transition that takes funds out of
/// escrow for the freelancer subtracts exactly the equal split, and only
/// when the pool covers it — otherwise the approval is rejected — so the
/// balance can never go below zero.
pub proof fn lemma_approval_never_overdraws(
    c: ContractView,
    m: MilestoneView,
    c2: ContractView,
    m2: MilestoneView,
    now: i64,
)
    requires
        c.wf(),
        approve_milestone_spec(c, m, now) == Ok::<(ContractView, MilestoneView), ErrorCode>(
            (c2, m2),
        ),
    ensures
        c.escrow_balance >= c.milestone_payment(),
        c2.escrow_balance == c.escrow_balance - c.milestone_payment(),
        c2.escrow_balance >= 0,
{
    lemma_split_payment_bounded(c.total_amount, c.milestone_count);
    assert(approve_milestone_spec(c, m, now)->Ok_0.0 =~= c2);
}

/// A disputed contract accepts no further fund movement: every deposit and
/// every approval against it is rejected.
pub proof fn lemma_disputed_contract_is_frozen(
    c: ContractView,
    m: MilestoneView,
    amount: u64,
    now: i64,
)
    requires
        c.status == ContractStatus::Disputed,
    ensures
        deposit_funds_spec(c, amount) is Err,
        approve_milestone_spec(c, m, now) == Err::<(ContractView, MilestoneView), ErrorCode>(
            ErrorCode::ContractNotActive,
        ),
{
}

} // verus!
