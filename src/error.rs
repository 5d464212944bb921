use vstd::prelude::*;

verus! {

/// Why an instruction was refused. A refused instruction changes no state.
#[derive(Clone, Copy, Debug, PartialEq, Eq, Structural)]
pub enum ErrorCode {
    NameTooLong,
    UriTooLong,
    InvalidPrice,
    InvalidFee,
    InvalidInventory,
    InvalidQuantity,
    InsufficientInventory,
    Overflow,
    AlreadyInitialized,
    NotOwner,
    Unauthorized,
    AlreadyPaid,
}

impl ErrorCode {
    /// The short message shown to a user for this error.
    pub fn message(&self) -> (s: &'static str) {
        match self {
            ErrorCode::NameTooLong => "Name is too long",
            ErrorCode::UriTooLong => "URI is too long",
            ErrorCode::InvalidPrice => "Invalid price",
            ErrorCode::InvalidFee => "Fee exceeds the whole sale",
            ErrorCode::InvalidInventory => "Invalid inventory",
            ErrorCode::InvalidQuantity => "Invalid quantity",
            ErrorCode::InsufficientInventory => "Insufficient inventory",
            ErrorCode::Overflow => "Arithmetic overflow",
            ErrorCode::AlreadyInitialized => "Account already initialized",
            ErrorCode::NotOwner => "Signer does not own this account",
            ErrorCode::Unauthorized => "Account does not match the platform configuration",
            ErrorCode::AlreadyPaid => "Holder already paid in this round",
        }
    }
}

} // verus!
