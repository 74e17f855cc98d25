//! The three operations on permission records: grant, revoke, check.
//!
//! Each takes a context with the identities that were authenticated for the
//! call and one reading `now` of the authoritative clock.

use vstd::prelude::*;
use crate::error::ErrorCode;
use crate::events::{PermissionGranted, PermissionRevoked};
use crate::identity::Identity;
use crate::model::{
    access_valid, after_revoke, check_outcome, grant_notice, granted, revocation_notice,
    revoke_outcome,
};
use crate::permission::{AccessLevel, Permission};

verus! {

/// Who stands behind a grant: the citizen who gives the permission, and the
/// sponsor who pays for keeping the record.
#[derive(Clone, Debug, PartialEq, Eq)]
pub struct GrantAccess {
    pub citizen_wallet: Identity,
    pub government_payer: Identity,
}

/// A revoke: the record to revoke and the citizen who asks for it.
#[derive(Clone, Debug, PartialEq, Eq)]
pub struct RevokeAccess {
    pub permission: Permission,
    pub citizen_wallet: Identity,
}

/// A check: the record to check and the verifier who asks.
#[derive(Clone, Debug, PartialEq, Eq)]
pub struct CheckAccess {
    pub permission: Permission,
    pub verifier_wallet: Identity,
}

/// Creates the permission of `verifier_wallet` on `document_id`, granted at
/// time `now` by the citizen of `ctx`.
///
/// The record's citizen is always the authenticated one. Returns the new
/// record, active and unrevoked, with the notification to publish.
pub fn grant_access(
    ctx: &GrantAccess,
    document_id: String,
    verifier_wallet: Identity,
    access_level: AccessLevel,
    expires_at: Option<i64>,
    now: i64,
) -> (created: (Permission, PermissionGranted))
    ensures
        created.0@ == granted(
            document_id@,
            ctx.citizen_wallet@,
            verifier_wallet@,
            access_level,
            expires_at,
            now,
        ),
        created.0.citizen_wallet == ctx.citizen_wallet,
        created.0.verifier_wallet == verifier_wallet,
        created.0.is_active,
        created.0.revoked_at is None,
        created.0.granted_at == now,
        created.0.well_formed(),
        created.1@ == grant_notice(created.0@),
{
    let event = PermissionGranted {
        document_id: document_id.clone(),
        citizen: ctx.citizen_wallet,
        verifier: verifier_wallet,
        access_level,
    };
    let permission = Permission {
        document_id,
        citizen_wallet: ctx.citizen_wallet,
        verifier_wallet,
        access_level,
        granted_at: now,
        revoked_at: None,
        expires_at,
        is_active: true,
    };
    (permission, event)
}

/// Revokes the record of `ctx` at time `now`, if the citizen of `ctx` is the
/// record's citizen.
///
/// On success the record is inactive with `now` as its revocation time,
/// also where it was revoked before, and the notification to publish is
/// returned. Anyone else is refused with `UnauthorizedRevoke`, and nothing
/// changes.
pub fn revoke_access(ctx: &mut RevokeAccess, now: i64) -> (result: Result<
    PermissionRevoked,
    ErrorCode,
>)
    ensures
        final(ctx).citizen_wallet == old(ctx).citizen_wallet,
        match revoke_outcome(old(ctx).permission@, old(ctx).citizen_wallet@, now) {
            Ok(p) => {
                &&& result matches Ok(event)
                &&& event@ == revocation_notice(p)
                &&& final(ctx).permission@ == p
            },
            Err(e) => result == Err::<PermissionRevoked, ErrorCode>(e) && *final(ctx) == *old(ctx),
        },
        final(ctx).permission@ == after_revoke(
            old(ctx).permission@,
            old(ctx).citizen_wallet@,
            now,
        ),
        result is Err <==> old(ctx).permission.citizen_wallet@ != old(ctx).citizen_wallet@,
        result is Ok ==> !final(ctx).permission.is_active && final(ctx).permission.revoked_at
            == Some(now),
        !old(ctx).permission.is_active ==> !final(ctx).permission.is_active,
        old(ctx).permission.well_formed() ==> final(ctx).permission.well_formed(),
{
    if !ctx.permission.citizen_wallet.same_as(&ctx.citizen_wallet) {
        return Err(ErrorCode::UnauthorizedRevoke);
    }
    ctx.permission.is_active = false;
    ctx.permission.revoked_at = Some(now);
    Ok(
        PermissionRevoked {
            document_id: ctx.permission.document_id.clone(),
            citizen: ctx.permission.citizen_wallet,
            verifier: ctx.permission.verifier_wallet,
        },
    )
}

/// Answers whether the verifier of `ctx` has access through the record of
/// `ctx` at time `now`.
///
/// The only success is `Ok(true)`; a denial is always an error that says
/// why: `PermissionRevoked` for an inactive record, else `PermissionExpired`
/// once `now` has reached the expiry time, else `UnauthorizedAccess` for
/// anyone but the record's verifier. The access level plays no part.
pub fn check_access(ctx: &CheckAccess, now: i64) -> (result: Result<bool, ErrorCode>)
    ensures
        result == check_outcome(ctx.permission@, ctx.verifier_wallet@, now),
        result == Ok::<bool, ErrorCode>(true) <==> access_valid(
            ctx.permission@,
            ctx.verifier_wallet@,
            now,
        ),
        result != Ok::<bool, ErrorCode>(false),
{
    if !ctx.permission.is_active {
        return Err(ErrorCode::PermissionRevoked);
    }
    if let Some(limit) = ctx.permission.expires_at {
        if !(now < limit) {
            return Err(ErrorCode::PermissionExpired);
        }
    }
    if !ctx.permission.verifier_wallet.same_as(&ctx.verifier_wallet) {
        return Err(ErrorCode::UnauthorizedAccess);
    }
    Ok(true)
}

} // verus!
