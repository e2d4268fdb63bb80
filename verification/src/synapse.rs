//! The rows that a migration reads from the Synapse database.
//!
//! User IDs are fully qualified (`@<localpart>:<server name>`) and kept as
//! they were read. Times that an identifier is later minted for are
//! [`Timestamp`]s; times that are only carried over are plain milliseconds
//! since the epoch.

use crate::ident::Timestamp;
use vstd::prelude::*;

verus! {

/// The characters of an optional string.
pub open spec fn opt_text(text: Option<String>) -> Option<Seq<char>> {
    match text {
        Some(text) => Some(text@),
        None => None,
    }
}

/// A row of the users table.
#[derive(Debug, Clone, PartialEq, Eq)]
pub struct SynapseUser {
    /// Fully-qualified user ID.
    pub name: String,
    /// Hash of the user's password, where one is set.
    pub password_hash: Option<String>,
    /// Whether the user is a server administrator.
    pub admin: bool,
    /// Whether the account was deactivated.
    pub deactivated: bool,
    /// When the account was created.
    pub creation_ts: Timestamp,
}

pub struct SynapseUserView {
    pub name: Seq<char>,
    pub password_hash: Option<Seq<char>>,
    pub admin: bool,
    pub deactivated: bool,
    pub creation_ts: Timestamp,
}

impl View for SynapseUser {
    type V = SynapseUserView;

    open spec fn view(&self) -> SynapseUserView {
        SynapseUserView {
            name: self.name@,
            password_hash: opt_text(self.password_hash),
            admin: self.admin,
            deactivated: self.deactivated,
            creation_ts: self.creation_ts,
        }
    }
}

/// A third-party identifier (an email address, a phone number, ...) bound to
/// a user.
#[derive(Debug, Clone, PartialEq, Eq)]
pub struct SynapseThreepid {
    pub user_id: String,
    /// The kind of identifier; `email` for an email address.
    pub medium: String,
    pub address: String,
    /// When the identifier was bound to the user.
    pub added_at: Timestamp,
}

pub struct SynapseThreepidView {
    pub user_id: Seq<char>,
    pub medium: Seq<char>,
    pub address: Seq<char>,
    pub added_at: Timestamp,
}

impl View for SynapseThreepid {
    type V = SynapseThreepidView;

    open spec fn view(&self) -> SynapseThreepidView {
        SynapseThreepidView {
            user_id: self.user_id@,
            medium: self.medium@,
            address: self.address@,
            added_at: self.added_at,
        }
    }
}

/// A link between a user and an identity at an upstream provider.
#[derive(Debug, Clone, PartialEq, Eq)]
pub struct SynapseExternalId {
    pub user_id: String,
    /// The name under which Synapse knows the provider.
    pub auth_provider: String,
    /// The user's identifier at the provider.
    pub external_id: String,
}

pub struct SynapseExternalIdView {
    pub user_id: Seq<char>,
    pub auth_provider: Seq<char>,
    pub external_id: Seq<char>,
}

impl View for SynapseExternalId {
    type V = SynapseExternalIdView;

    open spec fn view(&self) -> SynapseExternalIdView {
        SynapseExternalIdView {
            user_id: self.user_id@,
            auth_provider: self.auth_provider@,
            external_id: self.external_id@,
        }
    }
}

/// A row of the devices table.
#[derive(Debug, Clone, PartialEq, Eq)]
pub struct SynapseDevice {
    pub user_id: String,
    pub device_id: String,
    pub display_name: Option<String>,
    /// When the device was last seen, in milliseconds since the epoch.
    pub last_seen: Option<i64>,
    /// The address the device was last seen at, as free-form text.
    pub ip: Option<String>,
    pub user_agent: Option<String>,
}

pub struct SynapseDeviceView {
    pub user_id: Seq<char>,
    pub device_id: Seq<char>,
    pub display_name: Option<Seq<char>>,
    pub last_seen: Option<i64>,
    pub ip: Option<Seq<char>>,
    pub user_agent: Option<Seq<char>>,
}

impl View for SynapseDevice {
    type V = SynapseDeviceView;

    open spec fn view(&self) -> SynapseDeviceView {
        SynapseDeviceView {
            user_id: self.user_id@,
            device_id: self.device_id@,
            display_name: opt_text(self.display_name),
            last_seen: self.last_seen,
            ip: opt_text(self.ip),
            user_agent: opt_text(self.user_agent),
        }
    }
}

/// An access token that has no refresh token.
#[derive(Debug, Clone, PartialEq, Eq)]
pub struct SynapseAccessToken {
    pub user_id: String,
    /// The device the token belongs to; a few old tokens belong to none.
    pub device_id: Option<String>,
    pub token: String,
    /// When the token expires, in milliseconds since the epoch.
    pub valid_until_ms: Option<i64>,
    /// When the token was last validated: the closest there is to the time
    /// it was created.
    pub last_validated: Option<Timestamp>,
}

pub struct SynapseAccessTokenView {
    pub user_id: Seq<char>,
    pub device_id: Option<Seq<char>>,
    pub token: Seq<char>,
    pub valid_until_ms: Option<i64>,
    pub last_validated: Option<Timestamp>,
}

impl View for SynapseAccessToken {
    type V = SynapseAccessTokenView;

    open spec fn view(&self) -> SynapseAccessTokenView {
        SynapseAccessTokenView {
            user_id: self.user_id@,
            device_id: opt_text(self.device_id),
            token: self.token@,
            valid_until_ms: self.valid_until_ms,
            last_validated: self.last_validated,
        }
    }
}

/// An access token together with the refresh token it was issued with.
#[derive(Debug, Clone, PartialEq, Eq)]
pub struct SynapseRefreshableTokenPair {
    pub user_id: String,
    pub device_id: String,
    pub access_token: String,
    pub refresh_token: String,
    /// When the access token expires, in milliseconds since the epoch.
    pub valid_until_ms: Option<i64>,
    /// When the access token was last validated.
    pub last_validated: Option<Timestamp>,
}

pub struct SynapseRefreshableTokenPairView {
    pub user_id: Seq<char>,
    pub device_id: Seq<char>,
    pub access_token: Seq<char>,
    pub refresh_token: Seq<char>,
    pub valid_until_ms: Option<i64>,
    pub last_validated: Option<Timestamp>,
}

impl View for SynapseRefreshableTokenPair {
    type V = SynapseRefreshableTokenPairView;

    open spec fn view(&self) -> SynapseRefreshableTokenPairView {
        SynapseRefreshableTokenPairView {
            user_id: self.user_id@,
            device_id: self.device_id@,
            access_token: self.access_token@,
            refresh_token: self.refresh_token@,
            valid_until_ms: self.valid_until_ms,
            last_validated: self.last_validated,
        }
    }
}

} // verus!
