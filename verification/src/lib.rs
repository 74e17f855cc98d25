//! Record-based access control for documents.
//!
//! A citizen grants a verifier a scoped, optionally time-bounded permission
//! on a document, may revoke it at any moment, and the verifier can ask
//! whether the permission is currently valid. Every operation takes the
//! identities that were authenticated for it and one clock reading as plain
//! values, and gives back the record change and the notification to publish.

pub mod identity;
pub mod error;
pub mod permission;
pub mod events;
pub mod model;
pub mod access;
pub mod laws;

pub use crate::access::{check_access, grant_access, revoke_access, CheckAccess, GrantAccess, RevokeAccess};
pub use crate::error::ErrorCode;
pub use crate::events::{PermissionGranted, PermissionRevoked};
pub use crate::identity::Identity;
pub use crate::permission::{AccessLevel, Permission};
