use vstd::prelude::*;

verus! {

/// The failures that the escrow's own checks report.
#[derive(Clone, Copy, Debug, PartialEq, Eq, Structural)]
pub enum CustomError {
    /// The caller is not the record's designated owner.
    Unauthorized,
    /// The vault already holds its asset.
    AlreadyLocked,
    /// The buyer cannot pay the listing's price.
    InsufficientFunds,
}

/// A failure of the custody layer's transfer, carried as the numeric code
/// that the layer reported.
#[derive(Clone, Copy, Debug, PartialEq, Eq, Structural)]
pub struct TransferError {
    pub code: u64,
}

/// Why an operation aborted. An aborted operation leaves every record that
/// it was handed as it was.
#[derive(Clone, Copy, Debug, PartialEq, Eq, Structural)]
pub enum Error {
    Custom(CustomError),
    Transfer(TransferError),
}

impl CustomError {
    /// The message shown for the error.
    pub fn message(&self) -> (r: &'static str)
        ensures
            r@ == custom_error_message(*self),
    {
        match self {
            CustomError::Unauthorized => "Unauthorized.",
            CustomError::AlreadyLocked => "NFT is already locked.",
            CustomError::InsufficientFunds => "Insufficient funds to execute swap.",
        }
    }
}

pub open spec fn custom_error_message(e: CustomError) -> Seq<char> {
    match e {
        CustomError::Unauthorized => "Unauthorized."@,
        CustomError::AlreadyLocked => "NFT is already locked."@,
        CustomError::InsufficientFunds => "Insufficient funds to execute swap."@,
    }
}

/// The error of an operation whose own checks passed and whose custody
/// transfer came back with `outcome`.
pub open spec fn transfer_result(outcome: Result<(), TransferError>) -> Result<(), Error> {
    match outcome {
        Ok(()) => Ok(()),
        Err(e) => Err(Error::Transfer(e)),
    }
}

} // verus!
