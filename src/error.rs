use vstd::prelude::*;

verus! {

/// Why an operation of the vesting ledger was refused. Every refusal
/// leaves the ledger as it was.
#[derive(Clone, Copy, Debug, PartialEq, Eq, Structural)]
pub enum Error {
    /// A value that must be there is missing, or the input is malformed.
    FatalError,
    /// The cliff has not passed yet.
    VestingStartError,
    /// The caller is not the recipient of the record claimed.
    UserError,
    /// Nothing new has vested since the last claim.
    UnsufficentBalance,
    /// An administrative call from someone other than the owner.
    AdminError,
}

impl Error {
    /// The stable user error code that the host reports for this error.
    pub fn code(&self) -> (r: u16)
        ensures
            r == error_code(*self),
    {
        match self {
            Error::FatalError => 0,
            Error::VestingStartError => 1,
            Error::UserError => 2,
            Error::UnsufficentBalance => 3,
            Error::AdminError => 4,
        }
    }
}

/// The code of each error, distinct for distinct errors.
pub open spec fn error_code(e: Error) -> u16 {
    match e {
        Error::FatalError => 0,
        Error::VestingStartError => 1,
        Error::UserError => 2,
        Error::UnsufficentBalance => 3,
        Error::AdminError => 4,
    }
}

} // verus!
