//! The ways in which an operation on the escrow can fail.

use vstd::prelude::*;

verus! {

/// Why an operation was refused. A refused operation changes nothing.
#[derive(Clone, Copy, Debug, PartialEq, Eq, Structural)]
pub enum ContractError {
    /// A deposit was required and the funds handed in carry no value.
    EmptyBalance,
    /// An escrow with this identifier is already live.
    AlreadyInUse,
    /// No live escrow has this identifier.
    NotFound,
    /// The caller is not the one entitled to the operation.
    Unauthorized,
    /// The escrow's end height or end time has passed.
    Expired,
    /// Approval was asked for an escrow that names no recipient.
    RecipientNotSet,
    /// A token was sent that the escrow's whitelist does not name.
    NotInWhitelist,
    /// The identity validator turned a raw identity down.
    InvalidAddress,
    /// An amount would have grown past what 128 bits hold.
    Overflow,
    /// A transfer instruction could not be encoded.
    SerializeErr,
    /// The instruction embedded in a token notification could not be decoded.
    ParseErr,
}

} // verus!
