//! Notifications for outside observers. The library builds them; publishing
//! them is the caller's part.

use vstd::prelude::*;
use crate::identity::Identity;
use crate::permission::AccessLevel;

verus! {

/// Published when a permission has been granted.
#[derive(Clone, Debug, PartialEq, Eq)]
pub struct PermissionGranted {
    pub document_id: String,
    pub citizen: Identity,
    pub verifier: Identity,
    pub access_level: AccessLevel,
}

/// Published when a permission has been revoked.
#[derive(Clone, Debug, PartialEq, Eq)]
pub struct PermissionRevoked {
    pub document_id: String,
    pub citizen: Identity,
    pub verifier: Identity,
}

/// What a grant notification carries, as plain mathematical values.
pub struct PermissionGrantedView {
    pub document_id: Seq<char>,
    pub citizen: Seq<u8>,
    pub verifier: Seq<u8>,
    pub access_level: AccessLevel,
}

/// What a revocation notification carries, as plain mathematical values.
pub struct PermissionRevokedView {
    pub document_id: Seq<char>,
    pub citizen: Seq<u8>,
    pub verifier: Seq<u8>,
}

impl View for PermissionGranted {
    type V = PermissionGrantedView;

    open spec fn view(&self) -> PermissionGrantedView {
        PermissionGrantedView {
            document_id: self.document_id@,
            citizen: self.citizen@,
            verifier: self.verifier@,
            access_level: self.access_level,
        }
    }
}

impl View for PermissionRevoked {
    type V = PermissionRevokedView;

    open spec fn view(&self) -> PermissionRevokedView {
        PermissionRevokedView {
            document_id: self.document_id@,
            citizen: self.citizen@,
            verifier: self.verifier@,
        }
    }
}

} // verus!
