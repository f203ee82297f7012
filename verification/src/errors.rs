use vstd::prelude::*;

verus! {

/// Every way an operation can be rejected. A rejected operation names the
/// exact precondition that failed and applies no state change; each
/// operation's contract states which error comes back on which inputs.
///
/// `ArithmeticOverflow` and `ArithmeticUnderflow` mark integrity violations
/// in the books themselves rather than bad user input. `TransferFailed` is
/// reserved for the caller that drives the external transfer primitive: when
/// the transfer fails, the caller discards the computed records and reports
/// this error, so the ledger state stays untouched.
#[derive(Clone, Copy, PartialEq, Eq, Structural, Debug)]
pub enum ErrorCode {
    DuplicateContract,
    ContractNotActive,
    InvalidMilestone,
    MilestoneAlreadyApproved,
    InvalidContractState,
    InvalidAmount,
    ExceedsPerMilestone,
    ExceedsTotal,
    AuthorizationInactive,
    UnauthorizedClient,
    UnauthorizedFreelancer,
    ArithmeticOverflow,
    ArithmeticUnderflow,
    TransferFailed,
}

} // verus!
