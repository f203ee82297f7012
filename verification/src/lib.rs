//! A verified ledger core for milestone-based escrow payments.
//!
//! Two independent record kinds are governed here. An escrow contract pools a
//! client's deposits and releases an equal split of the contract value to the
//! freelancer each time the client approves a milestone; a dispute drains the
//! remaining pool back to the client. A payment authorization lets a client
//! grant a standing, limit-bounded permission for direct payments, spent down
//! one bounded payment at a time and revocable at will.
//!
//! Every operation is a pure transition: it takes the current records and the
//! inputs, and either returns the complete new records (plus the amount the
//! caller must move between accounts, and the notification to emit) or a
//! specific error, leaving nothing half-applied. Moving value, proving caller
//! identity, reading the clock, and storing records by key are the caller's
//! collaborators; they hand this crate plain values. A caller that also moves
//! funds must perform the transfer first and persist the returned records only
//! once the transfer has succeeded, so that the books never run ahead of the
//! money.

pub mod amount_guard;
pub mod auth;
pub mod errors;
pub mod escrow;
pub mod party;
