//! Input validation, checked arithmetic and a reentrancy guard for a wagering
//! session. The validators and the arithmetic are pure; the guard flips one
//! flag on a session record that the caller owns.

pub mod address;
pub mod errors;
pub mod guard;
pub mod safe_math;
pub mod validation;
