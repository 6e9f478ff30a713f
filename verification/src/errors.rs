//! The errors of the escrow.

use vstd::prelude::*;

verus! {

/// Every way an escrow operation can fail.
///
/// `NotInitialized` is reserved: no operation returns it.
#[derive(Copy, Clone, Debug, PartialEq, Eq, PartialOrd, Ord, Structural)]
pub enum CyloEscrowErrors {
    AlreadyInitialized,
    NotInitialized,
    InvalidOrderId,
    Unauthorized,
    InvalidInput,
    TransferFailed,
    AlreadyProcessed,
    NotExpired,
}

impl CyloEscrowErrors {
    /// The number under which the error is reported on the ledger.
    pub open spec fn spec_code(self) -> u32 {
        match self {
            CyloEscrowErrors::AlreadyInitialized => 1,
            CyloEscrowErrors::NotInitialized => 2,
            CyloEscrowErrors::InvalidOrderId => 3,
            CyloEscrowErrors::Unauthorized => 4,
            CyloEscrowErrors::InvalidInput => 5,
            CyloEscrowErrors::TransferFailed => 6,
            CyloEscrowErrors::AlreadyProcessed => 7,
            CyloEscrowErrors::NotExpired => 8,
        }
    }

    /// The number under which the error is reported on the ledger.
    #[verifier::when_used_as_spec(spec_code)]
    pub fn code(self) -> (code: u32)
        ensures
            code == self.spec_code(),
            1 <= code <= 8,
    {
        match self {
            CyloEscrowErrors::AlreadyInitialized => 1,
            CyloEscrowErrors::NotInitialized => 2,
            CyloEscrowErrors::InvalidOrderId => 3,
            CyloEscrowErrors::Unauthorized => 4,
            CyloEscrowErrors::InvalidInput => 5,
            CyloEscrowErrors::TransferFailed => 6,
            CyloEscrowErrors::AlreadyProcessed => 7,
            CyloEscrowErrors::NotExpired => 8,
        }
    }
}

} // verus!
