//! The error taxonomy of the escrow core.

use vstd::prelude::*;

verus! {

/// Every failure of the core falls in one of these classes.
///
/// - `NotFound`: unknown order id.
/// - `Conflict`: duplicate creation, duplicate session establishment, or a
///   second write to a write-once field.
/// - `InvalidState`: a status transition or outcome not allowed by the state
///   machine.
/// - `InvalidInput`: malformed hex, a binary field of the wrong length, or an
///   unparsable amount.
/// - `UpstreamFailure`: a wallet/key-service or blockchain-client call failed
///   (reported by the surrounding program; the core itself never raises it).
/// - `PersistenceFailure`: a repository read or write failed (likewise raised
///   only by the surrounding program).
#[derive(Clone, Copy, PartialEq, Eq, Structural, Debug)]
pub enum EscrowError {
    NotFound,
    Conflict,
    InvalidState,
    InvalidInput,
    UpstreamFailure,
    PersistenceFailure,
}

impl EscrowError {
    pub open spec fn spec_kind_name(self) -> Seq<char> {
        match self {
            EscrowError::NotFound => "not found"@,
            EscrowError::Conflict => "conflict"@,
            EscrowError::InvalidState => "invalid state"@,
            EscrowError::InvalidInput => "invalid input"@,
            EscrowError::UpstreamFailure => "upstream failure"@,
            EscrowError::PersistenceFailure => "persistence failure"@,
        }
    }

    /// A short human-readable name of the error class.
    pub fn kind_name(self) -> (r: String)
        ensures
            r@ == self.spec_kind_name(),
    {
        match self {
            EscrowError::NotFound => "not found".to_owned(),
            EscrowError::Conflict => "conflict".to_owned(),
            EscrowError::InvalidState => "invalid state".to_owned(),
            EscrowError::InvalidInput => "invalid input".to_owned(),
            EscrowError::UpstreamFailure => "upstream failure".to_owned(),
            EscrowError::PersistenceFailure => "persistence failure".to_owned(),
        }
    }
}

} // verus!
