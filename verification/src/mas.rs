//! The rows that a migration writes to the authentication service's
//! database.
//!
//! Identifiers are 128-bit values minted by [`crate::ident::mint`]; every row
//! that has an identifier of its own and a creation time carries that time in
//! the identifier.

use crate::ident::{id_timestamp, Timestamp};
use crate::synapse::opt_text;
use vstd::prelude::*;

verus! {

/// A network address in the destination's structured form.
#[derive(Debug, Clone, Copy, PartialEq, Eq, Structural)]
pub enum IpAddress {
    /// The four octets of an IPv4 address, most significant first.
    V4(u32),
    /// The sixteen octets of an IPv6 address, most significant first.
    V6(u128),
}

/// A user account.
#[derive(Debug, Clone, PartialEq, Eq)]
pub struct MasNewUser {
    pub user_id: u128,
    pub username: String,
    pub created_at: Timestamp,
    /// Set for an account that may not be used.
    pub locked_at: Option<Timestamp>,
    pub can_request_admin: bool,
}

pub struct MasNewUserView {
    pub user_id: u128,
    pub username: Seq<char>,
    pub created_at: Timestamp,
    pub locked_at: Option<Timestamp>,
    pub can_request_admin: bool,
}

impl View for MasNewUser {
    type V = MasNewUserView;

    open spec fn view(&self) -> MasNewUserView {
        MasNewUserView {
            user_id: self.user_id,
            username: self.username@,
            created_at: self.created_at,
            locked_at: self.locked_at,
            can_request_admin: self.can_request_admin,
        }
    }
}

impl MasNewUserView {
    /// The identifier carries the creation time.
    pub open spec fn dated(self) -> bool {
        id_timestamp(self.user_id) == self.created_at@
    }
}

/// The password of a user.
#[derive(Debug, Clone, PartialEq, Eq)]
pub struct MasNewUserPassword {
    pub user_password_id: u128,
    pub user_id: u128,
    pub hashed_password: String,
    pub created_at: Timestamp,
}

pub struct MasNewUserPasswordView {
    pub user_password_id: u128,
    pub user_id: u128,
    pub hashed_password: Seq<char>,
    pub created_at: Timestamp,
}

impl View for MasNewUserPassword {
    type V = MasNewUserPasswordView;

    open spec fn view(&self) -> MasNewUserPasswordView {
        MasNewUserPasswordView {
            user_password_id: self.user_password_id,
            user_id: self.user_id,
            hashed_password: self.hashed_password@,
            created_at: self.created_at,
        }
    }
}

impl MasNewUserPasswordView {
    /// The identifier carries the creation time.
    pub open spec fn dated(self) -> bool {
        id_timestamp(self.user_password_id) == self.created_at@
    }
}

/// An email address of a user.
#[derive(Debug, Clone, PartialEq, Eq)]
pub struct MasNewEmailThreepid {
    pub user_email_id: u128,
    pub user_id: u128,
    pub email: String,
    pub created_at: Timestamp,
}

pub struct MasNewEmailThreepidView {
    pub user_email_id: u128,
    pub user_id: u128,
    pub email: Seq<char>,
    pub created_at: Timestamp,
}

impl View for MasNewEmailThreepid {
    type V = MasNewEmailThreepidView;

    open spec fn view(&self) -> MasNewEmailThreepidView {
        MasNewEmailThreepidView {
            user_email_id: self.user_email_id,
            user_id: self.user_id,
            email: self.email@,
            created_at: self.created_at,
        }
    }
}

impl MasNewEmailThreepidView {
    /// The identifier carries the creation time.
    pub open spec fn dated(self) -> bool {
        id_timestamp(self.user_email_id) == self.created_at@
    }
}

/// A third-party identifier of a kind that the destination only keeps on
/// record. It has no identifier of its own.
#[derive(Debug, Clone, PartialEq, Eq)]
pub struct MasNewUnsupportedThreepid {
    pub user_id: u128,
    pub medium: String,
    pub address: String,
    pub created_at: Timestamp,
}

pub struct MasNewUnsupportedThreepidView {
    pub user_id: u128,
    pub medium: Seq<char>,
    pub address: Seq<char>,
    pub created_at: Timestamp,
}

impl View for MasNewUnsupportedThreepid {
    type V = MasNewUnsupportedThreepidView;

    open spec fn view(&self) -> MasNewUnsupportedThreepidView {
        MasNewUnsupportedThreepidView {
            user_id: self.user_id,
            medium: self.medium@,
            address: self.address@,
            created_at: self.created_at,
        }
    }
}

/// What a source third-party identifier becomes.
#[derive(Debug, Clone, PartialEq, Eq)]
pub enum MasNewThreepid {
    Email(MasNewEmailThreepid),
    Unsupported(MasNewUnsupportedThreepid),
}

pub enum MasNewThreepidView {
    Email(MasNewEmailThreepidView),
    Unsupported(MasNewUnsupportedThreepidView),
}

impl View for MasNewThreepid {
    type V = MasNewThreepidView;

    open spec fn view(&self) -> MasNewThreepidView {
        match *self {
            MasNewThreepid::Email(row) => MasNewThreepidView::Email(row@),
            MasNewThreepid::Unsupported(row) => MasNewThreepidView::Unsupported(row@),
        }
    }
}

impl MasNewThreepidView {
    /// The user that the identifier belongs to.
    pub open spec fn user_id(self) -> u128 {
        match self {
            MasNewThreepidView::Email(row) => row.user_id,
            MasNewThreepidView::Unsupported(row) => row.user_id,
        }
    }

    /// The identifier, where the row has one, carries the creation time.
    pub open spec fn dated(self) -> bool {
        match self {
            MasNewThreepidView::Email(row) => row.dated(),
            MasNewThreepidView::Unsupported(_) => true,
        }
    }
}

/// A link between a user and an identity at an upstream provider.
#[derive(Debug, Clone, PartialEq, Eq)]
pub struct MasNewUpstreamOauthLink {
    pub link_id: u128,
    pub user_id: u128,
    pub upstream_provider_id: u128,
    pub subject: String,
    pub created_at: Timestamp,
}

pub struct MasNewUpstreamOauthLinkView {
    pub link_id: u128,
    pub user_id: u128,
    pub upstream_provider_id: u128,
    pub subject: Seq<char>,
    pub created_at: Timestamp,
}

impl View for MasNewUpstreamOauthLink {
    type V = MasNewUpstreamOauthLinkView;

    open spec fn view(&self) -> MasNewUpstreamOauthLinkView {
        MasNewUpstreamOauthLinkView {
            link_id: self.link_id,
            user_id: self.user_id,
            upstream_provider_id: self.upstream_provider_id,
            subject: self.subject@,
            created_at: self.created_at,
        }
    }
}

impl MasNewUpstreamOauthLinkView {
    /// The identifier carries the creation time.
    pub open spec fn dated(self) -> bool {
        id_timestamp(self.link_id) == self.created_at@
    }
}

/// A session of a legacy client, one per device, or one per token where the
/// token belongs to no device.
#[derive(Debug, Clone, PartialEq, Eq)]
pub struct MasNewCompatSession {
    pub session_id: u128,
    pub user_id: u128,
    pub device_id: Option<String>,
    pub human_name: Option<String>,
    pub created_at: Timestamp,
    pub is_synapse_admin: bool,
    /// When the session was last active, in milliseconds since the epoch.
    pub last_active_at: Option<i64>,
    pub last_active_ip: Option<IpAddress>,
    pub user_agent: Option<String>,
}

pub struct MasNewCompatSessionView {
    pub session_id: u128,
    pub user_id: u128,
    pub device_id: Option<Seq<char>>,
    pub human_name: Option<Seq<char>>,
    pub created_at: Timestamp,
    pub is_synapse_admin: bool,
    pub last_active_at: Option<i64>,
    pub last_active_ip: Option<IpAddress>,
    pub user_agent: Option<Seq<char>>,
}

impl View for MasNewCompatSession {
    type V = MasNewCompatSessionView;

    open spec fn view(&self) -> MasNewCompatSessionView {
        MasNewCompatSessionView {
            session_id: self.session_id,
            user_id: self.user_id,
            device_id: opt_text(self.device_id),
            human_name: opt_text(self.human_name),
            created_at: self.created_at,
            is_synapse_admin: self.is_synapse_admin,
            last_active_at: self.last_active_at,
            last_active_ip: self.last_active_ip,
            user_agent: opt_text(self.user_agent),
        }
    }
}

impl MasNewCompatSessionView {
    /// The identifier carries the creation time.
    pub open spec fn dated(self) -> bool {
        id_timestamp(self.session_id) == self.created_at@
    }
}

/// An access token of a legacy client.
#[derive(Debug, Clone, PartialEq, Eq)]
pub struct MasNewCompatAccessToken {
    pub token_id: u128,
    pub session_id: u128,
    pub access_token: String,
    pub created_at: Timestamp,
    /// When the token expires, in milliseconds since the epoch.
    pub expires_at: Option<i64>,
}

pub struct MasNewCompatAccessTokenView {
    pub token_id: u128,
    pub session_id: u128,
    pub access_token: Seq<char>,
    pub created_at: Timestamp,
    pub expires_at: Option<i64>,
}

impl View for MasNewCompatAccessToken {
    type V = MasNewCompatAccessTokenView;

    open spec fn view(&self) -> MasNewCompatAccessTokenView {
        MasNewCompatAccessTokenView {
            token_id: self.token_id,
            session_id: self.session_id,
            access_token: self.access_token@,
            created_at: self.created_at,
            expires_at: self.expires_at,
        }
    }
}

impl MasNewCompatAccessTokenView {
    /// The identifier carries the creation time.
    pub open spec fn dated(self) -> bool {
        id_timestamp(self.token_id) == self.created_at@
    }
}

/// A refresh token of a legacy client, tied to the access token it renews.
#[derive(Debug, Clone, PartialEq, Eq)]
pub struct MasNewCompatRefreshToken {
    pub refresh_token_id: u128,
    pub session_id: u128,
    pub access_token_id: u128,
    pub refresh_token: String,
    pub created_at: Timestamp,
}

pub struct MasNewCompatRefreshTokenView {
    pub refresh_token_id: u128,
    pub session_id: u128,
    pub access_token_id: u128,
    pub refresh_token: Seq<char>,
    pub created_at: Timestamp,
}

impl View for MasNewCompatRefreshToken {
    type V = MasNewCompatRefreshTokenView;

    open spec fn view(&self) -> MasNewCompatRefreshTokenView {
        MasNewCompatRefreshTokenView {
            refresh_token_id: self.refresh_token_id,
            session_id: self.session_id,
            access_token_id: self.access_token_id,
            refresh_token: self.refresh_token@,
            created_at: self.created_at,
        }
    }
}

impl MasNewCompatRefreshTokenView {
    /// The identifier carries the creation time.
    pub open spec fn dated(self) -> bool {
        id_timestamp(self.refresh_token_id) == self.created_at@
    }
}

} // verus!
