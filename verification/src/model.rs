//! The three operations as mathematical functions on record values.
//!
//! The contracts of the executable operations are stated over these functions,
//! and so are the laws of the library.

use vstd::prelude::*;
use crate::error::ErrorCode;
use crate::events::{PermissionGrantedView, PermissionRevokedView};
use crate::permission::{AccessLevel, PermissionView};

verus! {

/// The record that a grant creates at time `now`: active, never revoked,
/// owned by the authenticated `citizen`.
pub open spec fn granted(
    document_id: Seq<char>,
    citizen: Seq<u8>,
    verifier: Seq<u8>,
    access_level: AccessLevel,
    expires_at: Option<i64>,
    now: i64,
) -> PermissionView {
    PermissionView {
        document_id,
        citizen_wallet: citizen,
        verifier_wallet: verifier,
        access_level,
        granted_at: now,
        revoked_at: None,
        expires_at,
        is_active: true,
    }
}

/// The notification that announces the grant of `p`.
pub open spec fn grant_notice(p: PermissionView) -> PermissionGrantedView {
    PermissionGrantedView {
        document_id: p.document_id,
        citizen: p.citizen_wallet,
        verifier: p.verifier_wallet,
        access_level: p.access_level,
    }
}

/// Only the citizen of record may revoke.
pub open spec fn may_revoke(p: PermissionView, caller: Seq<u8>) -> bool {
    p.citizen_wallet == caller
}

/// The record `p` once revoked at time `now`: inactive, with `now` as its
/// revocation time, and otherwise as it was.
pub open spec fn revoked(p: PermissionView, now: i64) -> PermissionView {
    PermissionView { is_active: false, revoked_at: Some(now), ..p }
}

/// What a revoke by `caller` at time `now` does to `p`: the revoked record,
/// or the refusal.
pub open spec fn revoke_outcome(p: PermissionView, caller: Seq<u8>, now: i64) -> Result<
    PermissionView,
    ErrorCode,
> {
    if may_revoke(p, caller) {
        Ok(revoked(p, now))
    } else {
        Err(ErrorCode::UnauthorizedRevoke)
    }
}

/// The record after a revoke by `caller` at time `now`, refused or not.
pub open spec fn after_revoke(p: PermissionView, caller: Seq<u8>, now: i64) -> PermissionView {
    match revoke_outcome(p, caller, now) {
        Ok(q) => q,
        Err(_) => p,
    }
}

/// The record after the revokes `calls`, made in order, each by a caller at
/// a time.
pub open spec fn after_revokes(p: PermissionView, calls: Seq<(Seq<u8>, i64)>) -> PermissionView
    decreases calls.len(),
{
    if calls.len() == 0 {
        p
    } else {
        let last = calls.last();
        after_revoke(after_revokes(p, calls.drop_last()), last.0, last.1)
    }
}

/// The notification that announces the revocation of `p`.
pub open spec fn revocation_notice(p: PermissionView) -> PermissionRevokedView {
    PermissionRevokedView {
        document_id: p.document_id,
        citizen: p.citizen_wallet,
        verifier: p.verifier_wallet,
    }
}

/// Where a record stands in its life at a given time.
pub enum Phase {
    /// Active and not run out: its verifier has access.
    Active,
    /// Active, but the expiry time has been reached. Nothing leads back to
    /// `Active` from here.
    Expired,
    /// Revoked by its citizen. Nothing leads anywhere from here.
    Revoked,
}

/// The phase of `p` at time `now`. Revocation outweighs expiry.
pub open spec fn phase_at(p: PermissionView, now: i64) -> Phase {
    if !p.is_active {
        Phase::Revoked
    } else if p.expired_at(now) {
        Phase::Expired
    } else {
        Phase::Active
    }
}

/// Whether `caller` has access through `p` at time `now`: the record is
/// active, has not run out, and names `caller` as its verifier.
pub open spec fn access_valid(p: PermissionView, caller: Seq<u8>, now: i64) -> bool {
    &&& p.is_active
    &&& (p.expires_at matches Some(limit) ==> now < limit)
    &&& p.verifier_wallet == caller
}

/// What a check by `caller` at time `now` answers on `p`. The tests are
/// made in a fixed order and the first that fails names the refusal:
/// revoked, then expired, then wrong verifier.
pub open spec fn check_outcome(p: PermissionView, caller: Seq<u8>, now: i64) -> Result<
    bool,
    ErrorCode,
> {
    if !p.is_active {
        Err(ErrorCode::PermissionRevoked)
    } else if p.expired_at(now) {
        Err(ErrorCode::PermissionExpired)
    } else if p.verifier_wallet != caller {
        Err(ErrorCode::UnauthorizedAccess)
    } else {
        Ok(true)
    }
}

} // verus!
