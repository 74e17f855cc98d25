//! The permission record and its mathematical model.

use vstd::prelude::*;
use crate::identity::Identity;

verus! {

/// The scope that a grant asks for. It is recorded with the permission and
/// published with the grant; a check does not compare against it.
#[derive(Clone, Copy, Debug, PartialEq, Eq)]
pub enum AccessLevel {
    ViewMetadata,
    ViewDocument,
    Verify,
    FullAccess,
}

/// One permission: `citizen_wallet` lets `verifier_wallet` access the
/// document `document_id`.
///
/// Timestamps are seconds on the authoritative clock. `expires_at` absent
/// means that the permission never expires. A record starts active and
/// becomes inactive only by being revoked, once and for good.
#[derive(Clone, Debug, PartialEq, Eq)]
pub struct Permission {
    pub document_id: String,
    pub citizen_wallet: Identity,
    pub verifier_wallet: Identity,
    pub access_level: AccessLevel,
    pub granted_at: i64,
    pub revoked_at: Option<i64>,
    pub expires_at: Option<i64>,
    pub is_active: bool,
}

/// What a permission record is, as plain mathematical values.
pub struct PermissionView {
    pub document_id: Seq<char>,
    pub citizen_wallet: Seq<u8>,
    pub verifier_wallet: Seq<u8>,
    pub access_level: AccessLevel,
    pub granted_at: i64,
    pub revoked_at: Option<i64>,
    pub expires_at: Option<i64>,
    pub is_active: bool,
}

impl View for Permission {
    type V = PermissionView;

    open spec fn view(&self) -> PermissionView {
        PermissionView {
            document_id: self.document_id@,
            citizen_wallet: self.citizen_wallet@,
            verifier_wallet: self.verifier_wallet@,
            access_level: self.access_level,
            granted_at: self.granted_at,
            revoked_at: self.revoked_at,
            expires_at: self.expires_at,
            is_active: self.is_active,
        }
    }
}

impl PermissionView {
    /// The record invariant: a revocation time is recorded exactly when the
    /// record is no longer active.
    pub open spec fn well_formed(self) -> bool {
        self.revoked_at is Some <==> !self.is_active
    }

    /// Whether the record has run out at time `now`: it has an expiry time
    /// and `now` has reached it.
    pub open spec fn expired_at(self, now: i64) -> bool {
        self.expires_at matches Some(limit) && now >= limit
    }
}

impl Permission {
    /// The record invariant, on the record itself.
    pub open spec fn well_formed(&self) -> bool {
        self@.well_formed()
    }
}

} // verus!
