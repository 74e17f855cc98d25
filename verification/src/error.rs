//! The ways in which an operation on a permission record is refused.

use vstd::prelude::*;

verus! {

/// Why an operation was refused. Each kind is final: nothing is retried,
/// and a refusal leaves the record as it was.
#[derive(Clone, Copy, Debug, PartialEq, Eq)]
pub enum ErrorCode {
    /// A revoke was asked for by someone other than the record's citizen.
    UnauthorizedRevoke,
    /// A check was asked for by someone other than the record's verifier.
    UnauthorizedAccess,
    /// A check was made on a record that has been revoked.
    PermissionRevoked,
    /// A check was made at or after the record's expiry time.
    PermissionExpired,
}

/// The text shown to a caller for each kind of refusal.
pub open spec fn message_text(e: ErrorCode) -> Seq<char> {
    match e {
        ErrorCode::UnauthorizedRevoke => "Only citizen can revoke access"@,
        ErrorCode::UnauthorizedAccess => "Only authorized verifier can access"@,
        ErrorCode::PermissionRevoked => "Permission has been revoked"@,
        ErrorCode::PermissionExpired => "Permission has expired"@,
    }
}

impl ErrorCode {
    /// The text shown to a caller for this refusal.
    pub fn message(&self) -> (text: String)
        ensures
            text@ == message_text(*self),
    {
        match self {
            ErrorCode::UnauthorizedRevoke => "Only citizen can revoke access".to_owned(),
            ErrorCode::UnauthorizedAccess => "Only authorized verifier can access".to_owned(),
            ErrorCode::PermissionRevoked => "Permission has been revoked".to_owned(),
            ErrorCode::PermissionExpired => "Permission has expired".to_owned(),
        }
    }
}

} // verus!
