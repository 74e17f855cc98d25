//! Laws of the permission record, proved over the model of the operations.

use vstd::prelude::*;
use crate::error::ErrorCode;
use crate::model::{
    access_valid, after_revoke, after_revokes, check_outcome, granted, may_revoke, phase_at,
    revoked, Phase,
};
use crate::permission::{AccessLevel, PermissionView};

verus! {

/// A freshly granted record satisfies the record invariant, whatever the
/// inputs of the grant.
pub proof fn lemma_grant_is_well_formed(
    document_id: Seq<char>,
    citizen: Seq<u8>,
    verifier: Seq<u8>,
    access_level: AccessLevel,
    expires_at: Option<i64>,
    now: i64,
)
    ensures
        granted(document_id, citizen, verifier, access_level, expires_at, now).well_formed(),
{
}

/// Revocation is permanent: once a record is inactive, no sequence of
/// further revokes, by whomever and whenever, makes it active again.
pub proof fn lemma_revocation_is_permanent(p: PermissionView, calls: Seq<(Seq<u8>, i64)>)
    requires
        !p.is_active,
    ensures
        !after_revokes(p, calls).is_active,
    decreases calls.len(),
{
    if calls.len() > 0 {
        lemma_revocation_is_permanent(p, calls.drop_last());
    }
}

/// Revokes touch nothing but the active flag and the revocation time: the
/// document, both identities, the access level, the grant time and the
/// expiry time stay as they were through any sequence of revokes.
pub proof fn lemma_revokes_keep_the_grant(p: PermissionView, calls: Seq<(Seq<u8>, i64)>)
    ensures
        after_revokes(p, calls).document_id == p.document_id,
        after_revokes(p, calls).citizen_wallet == p.citizen_wallet,
        after_revokes(p, calls).verifier_wallet == p.verifier_wallet,
        after_revokes(p, calls).access_level == p.access_level,
        after_revokes(p, calls).granted_at == p.granted_at,
        after_revokes(p, calls).expires_at == p.expires_at,
    decreases calls.len(),
{
    if calls.len() > 0 {
        lemma_revokes_keep_the_grant(p, calls.drop_last());
    }
}

/// The record invariant survives any sequence of revokes.
pub proof fn lemma_revokes_keep_well_formed(p: PermissionView, calls: Seq<(Seq<u8>, i64)>)
    requires
        p.well_formed(),
    ensures
        after_revokes(p, calls).well_formed(),
    decreases calls.len(),
{
    if calls.len() > 0 {
        lemma_revokes_keep_well_formed(p, calls.drop_last());
    }
}

/// A revoke by anyone but the citizen of record is refused with
/// `UnauthorizedRevoke` and leaves the record as it was; a revoke by the
/// citizen gives the revoked record.
pub proof fn lemma_only_the_citizen_revokes(p: PermissionView, caller: Seq<u8>, now: i64)
    ensures
        caller != p.citizen_wallet ==> after_revoke(p, caller, now) == p,
        caller == p.citizen_wallet ==> after_revoke(p, caller, now) == revoked(p, now),
        may_revoke(p, caller) <==> caller == p.citizen_wallet,
{
}

/// A check succeeds exactly when the record is active, has not run out and
/// names the caller as its verifier; and it never answers `Ok(false)`.
pub proof fn lemma_check_succeeds_iff_valid(p: PermissionView, caller: Seq<u8>, now: i64)
    ensures
        check_outcome(p, caller, now) == Ok::<bool, ErrorCode>(true) <==> access_valid(
            p,
            caller,
            now,
        ),
        check_outcome(p, caller, now) == Ok::<bool, ErrorCode>(true) <==> (p.is_active && (
        p.expires_at is None || now < p.expires_at->Some_0) && p.verifier_wallet == caller),
        check_outcome(p, caller, now) != Ok::<bool, ErrorCode>(false),
{
}

/// The expiry time itself is already too late: for the verifier of an
/// active record, a check at the expiry time is refused with
/// `PermissionExpired`, and a check one second earlier succeeds.
pub proof fn lemma_expiry_boundary(p: PermissionView, limit: i64)
    requires
        p.is_active,
        p.expires_at == Some(limit),
    ensures
        check_outcome(p, p.verifier_wallet, limit) == Err::<bool, ErrorCode>(
            ErrorCode::PermissionExpired,
        ),
        limit > i64::MIN ==> check_outcome(p, p.verifier_wallet, (limit - 1) as i64) == Ok::<
            bool,
            ErrorCode,
        >(true),
{
}

/// Time only takes access away: whoever is denied on a record at one time
/// is denied on the same record at every later time.
pub proof fn lemma_denied_stays_denied(p: PermissionView, caller: Seq<u8>, now: i64, later: i64)
    requires
        now <= later,
        !access_valid(p, caller, now),
    ensures
        !access_valid(p, caller, later),
        check_outcome(p, caller, later) is Err,
{
}

/// Directly after a grant, a check succeeds for the named verifier and
/// nobody else, at every time before the expiry time; with no expiry time,
/// at every time at all.
pub proof fn lemma_check_after_grant(
    document_id: Seq<char>,
    citizen: Seq<u8>,
    verifier: Seq<u8>,
    access_level: AccessLevel,
    expires_at: Option<i64>,
    granted_at: i64,
    caller: Seq<u8>,
    now: i64,
)
    ensures
        ({
            let p = granted(document_id, citizen, verifier, access_level, expires_at, granted_at);
            &&& check_outcome(p, caller, now) == Ok::<bool, ErrorCode>(true) <==> (caller
                == verifier && (expires_at is None || now < expires_at->Some_0))
            &&& expires_at is None ==> check_outcome(p, verifier, now) == Ok::<bool, ErrorCode>(
                true,
            )
        }),
{
}

/// After a revoke by the citizen of record, and after any further revokes,
/// every check is refused with `PermissionRevoked`, whoever asks and
/// whenever.
pub proof fn lemma_check_after_revoke(
    p: PermissionView,
    revoked_time: i64,
    more: Seq<(Seq<u8>, i64)>,
    caller: Seq<u8>,
    now: i64,
)
    ensures
        check_outcome(
            after_revokes(after_revoke(p, p.citizen_wallet, revoked_time), more),
            caller,
            now,
        ) == Err::<bool, ErrorCode>(ErrorCode::PermissionRevoked),
{
    lemma_revocation_is_permanent(after_revoke(p, p.citizen_wallet, revoked_time), more);
}

/// A check reads the phase and the caller, nothing else: a revoked record
/// answers `PermissionRevoked`, an expired one `PermissionExpired`, and an
/// active one admits its verifier and refuses everyone else with
/// `UnauthorizedAccess`.
pub proof fn lemma_check_reads_the_phase(p: PermissionView, caller: Seq<u8>, now: i64)
    ensures
        check_outcome(p, caller, now) == (match phase_at(p, now) {
            Phase::Revoked => Err::<bool, ErrorCode>(ErrorCode::PermissionRevoked),
            Phase::Expired => Err::<bool, ErrorCode>(ErrorCode::PermissionExpired),
            Phase::Active => if caller == p.verifier_wallet {
                Ok::<bool, ErrorCode>(true)
            } else {
                Err::<bool, ErrorCode>(ErrorCode::UnauthorizedAccess)
            },
        }),
{
}

/// The ways through the phases. A grant starts a record as `Active`, or as
/// `Expired` where its expiry time is not after the time asked about. As
/// time passes and revokes are made, a record never comes back to `Active`
/// from `Expired` or `Revoked`, and never leaves `Revoked`.
pub proof fn lemma_phases_only_move_forward(
    p: PermissionView,
    calls: Seq<(Seq<u8>, i64)>,
    now: i64,
    later: i64,
)
    requires
        now <= later,
    ensures
        phase_at(p, now) is Revoked ==> phase_at(after_revokes(p, calls), later) is Revoked,
        phase_at(p, now) is Expired ==> !(phase_at(after_revokes(p, calls), later) is Active),
        phase_at(after_revokes(p, calls), later) is Active ==> phase_at(p, now) is Active,
{
    lemma_revokes_keep_the_grant(p, calls);
    if !p.is_active {
        lemma_revocation_is_permanent(p, calls);
    }
}

/// A revoke by the citizen of record ends every phase in `Revoked`; a
/// revoke by anyone else leaves the phase as it is.
pub proof fn lemma_revoke_moves_to_revoked(
    p: PermissionView,
    caller: Seq<u8>,
    revoked_time: i64,
    now: i64,
)
    ensures
        caller == p.citizen_wallet ==> phase_at(after_revoke(p, caller, revoked_time), now)
            is Revoked,
        caller != p.citizen_wallet ==> phase_at(after_revoke(p, caller, revoked_time), now)
            == phase_at(p, now),
{
}

} // verus!
