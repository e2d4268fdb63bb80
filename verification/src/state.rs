//! The mathematical state of a migration: the stage it has reached, the
//! indexes that later stages look users and sessions up in, and the record
//! of what was read and written; how each kind of source row changes that
//! state; and what holds of every state that a migration can reach.

use crate::ident::{id_timestamp, Timestamp};
use crate::localpart::localpart_of;
use crate::mas::{
    IpAddress, MasNewCompatAccessTokenView, MasNewCompatRefreshTokenView,
    MasNewCompatSessionView, MasNewThreepidView, MasNewUpstreamOauthLinkView,
    MasNewUserPasswordView, MasNewUserView,
};
use crate::record::{
    access_token_from, access_tokens_migrated, device_session_from, deviceless_session_from,
    devices_migrated, has_token, is_named_user, lemma_named_user_is_user, link_from,
    links_migrated, name_session, password_from, resolve_user, session_ip,
    sessions_dated_by_first_tokens, threepid_from, threepids_migrated, token_created_at,
    token_pair_from, token_pairs_migrated, user_from, users_migrated, Record,
};
use crate::synapse::{
    SynapseAccessTokenView, SynapseDeviceView, SynapseExternalIdView,
    SynapseRefreshableTokenPairView, SynapseThreepidView, SynapseUserView,
};
use vstd::prelude::*;

verus! {

/// The source table that a migration is reading, in the order in which the
/// tables are read.
#[derive(Debug, Clone, Copy, PartialEq, Eq, Structural)]
pub enum Stage {
    Users,
    Threepids,
    ExternalIds,
    UnrefreshableAccessTokens,
    RefreshableTokenPairs,
    Devices,
    Done,
}

impl Stage {
    /// The place of the stage in the order of the stages.
    pub open spec fn rank(self) -> nat {
        match self {
            Stage::Users => 0,
            Stage::Threepids => 1,
            Stage::ExternalIds => 2,
            Stage::UnrefreshableAccessTokens => 3,
            Stage::RefreshableTokenPairs => 4,
            Stage::Devices => 5,
            Stage::Done => 6,
        }
    }

    /// The stage that follows this one; nothing follows the last.
    pub open spec fn next(self) -> Stage {
        match self {
            Stage::Users => Stage::Threepids,
            Stage::Threepids => Stage::ExternalIds,
            Stage::ExternalIds => Stage::UnrefreshableAccessTokens,
            Stage::UnrefreshableAccessTokens => Stage::RefreshableTokenPairs,
            Stage::RefreshableTokenPairs => Stage::Devices,
            Stage::Devices => Stage::Done,
            Stage::Done => Stage::Done,
        }
    }
}

/// The mathematical state of a [`Migration`].
pub struct MigrationView {
    /// The name of the homeserver whose users are migrated.
    pub server_name: Seq<char>,
    /// The table being read.
    pub stage: Stage,
    /// The upstream provider of each auth provider.
    pub providers: Map<Seq<char>, u128>,
    /// The destination ID of each localpart.
    pub localparts: Map<Seq<char>, u128>,
    /// The destination IDs of the administrators.
    pub admins: Set<u128>,
    /// The session named for each `(user ID, device ID)`.
    pub sessions: Map<(u128, Seq<char>), u128>,
    /// What was read and written so far.
    pub record: Record,
}

impl MigrationView {
    /// The state after the user `user` was read and `row`, with `password`
    /// where there is one, was written for it: the user is in the index of
    /// localparts, and among the administrators where it is one.
    pub open spec fn after_user(
        self,
        user: SynapseUserView,
        row: MasNewUserView,
        password: Option<MasNewUserPasswordView>,
    ) -> MigrationView {
        MigrationView {
            localparts: self.localparts.insert(row.username, row.user_id),
            admins: if user.admin {
                self.admins.insert(row.user_id)
            } else {
                self.admins
            },
            record: self.record.with_user(user, row, password),
            ..self
        }
    }

    /// The state after `threepid` was read and `row` written for it.
    pub open spec fn after_threepid(
        self,
        threepid: SynapseThreepidView,
        row: MasNewThreepidView,
    ) -> MigrationView {
        MigrationView { record: self.record.with_threepid(threepid, row), ..self }
    }

    /// The state after `external_id` was read and `row` written for it.
    pub open spec fn after_external_id(
        self,
        external_id: SynapseExternalIdView,
        row: MasNewUpstreamOauthLinkView,
    ) -> MigrationView {
        MigrationView { record: self.record.with_external_id(external_id, row), ..self }
    }

    /// The state after the access token `token` of the user `user_id` was
    /// read and `row`, with `session` where the token belongs to no device,
    /// was written for it: the session of the token is the one that its
    /// device goes by from now on, unless the device had one.
    pub open spec fn after_access_token(
        self,
        token: SynapseAccessTokenView,
        user_id: u128,
        row: MasNewCompatAccessTokenView,
        session: Option<MasNewCompatSessionView>,
    ) -> MigrationView {
        MigrationView {
            sessions: match token.device_id {
                Some(device_id) => name_session(
                    self.sessions,
                    (user_id, device_id),
                    row.session_id,
                ),
                None => self.sessions,
            },
            record: self.record.with_access_token(token, row, session),
            ..self
        }
    }

    /// The state after the token pair `pair` of the user `user_id` was read
    /// and `access` and `refresh` were written for it: their session is the
    /// one that the pair's device goes by from now on, unless the device had
    /// one.
    pub open spec fn after_token_pair(
        self,
        pair: SynapseRefreshableTokenPairView,
        user_id: u128,
        access: MasNewCompatAccessTokenView,
        refresh: MasNewCompatRefreshTokenView,
    ) -> MigrationView {
        MigrationView {
            sessions: name_session(self.sessions, (user_id, pair.device_id), access.session_id),
            record: self.record.with_token_pair(pair, access, refresh),
            ..self
        }
    }

    /// The state after the device `device` of the user `user_id` was read
    /// and the session `row` written for it: the session is the one that the
    /// device goes by, unless the device had one.
    pub open spec fn after_device(
        self,
        device: SynapseDeviceView,
        user_id: u128,
        row: MasNewCompatSessionView,
    ) -> MigrationView {
        MigrationView {
            sessions: name_session(self.sessions, (user_id, device.device_id), row.session_id),
            record: self.record.with_device(device, row),
            ..self
        }
    }

    /// Reading the user `user` in this state gives `row`, with `password`
    /// where the user has one, and leads to the state `after`.
    pub open spec fn migrates_user(
        self,
        user: SynapseUserView,
        row: MasNewUserView,
        password: Option<MasNewUserPasswordView>,
        after: MigrationView,
    ) -> bool {
        &&& user_from(user, self.server_name, row)
        &&& password_from(user, row, password)
        &&& after == self.after_user(user, row, password)
    }

    /// Reading the third-party identifier `threepid` of the user `user_id`
    /// in this state gives `row` and leads to the state `after`.
    pub open spec fn migrates_threepid(
        self,
        threepid: SynapseThreepidView,
        user_id: u128,
        row: MasNewThreepidView,
        after: MigrationView,
    ) -> bool {
        &&& threepid_from(threepid, user_id, row)
        &&& after == self.after_threepid(threepid, row)
    }

    /// Reading the external ID `external_id` of the user `user_id` at the
    /// upstream provider `provider_id` in this state gives `row` and leads
    /// to the state `after`.
    pub open spec fn migrates_external_id(
        self,
        external_id: SynapseExternalIdView,
        user_id: u128,
        provider_id: u128,
        row: MasNewUpstreamOauthLinkView,
        after: MigrationView,
    ) -> bool {
        &&& link_from(external_id, user_id, provider_id, row)
        &&& after == self.after_external_id(external_id, row)
    }

    /// Reading the access token `token` of the user `user_id` in this state,
    /// at the time `now`, gives `row` and leads to the state `after`.
    ///
    /// The token is dated by the time it was last validated, or by `now`.
    /// Where it belongs to a device, no session is written: the token joins
    /// the session that the device goes by, which is named now, and dated as
    /// the token is, where the device had none. Where it belongs to no
    /// device, `session` is written for it alone, as old as the token.
    pub open spec fn migrates_access_token(
        self,
        token: SynapseAccessTokenView,
        now: Timestamp,
        user_id: u128,
        row: MasNewCompatAccessTokenView,
        session: Option<MasNewCompatSessionView>,
        after: MigrationView,
    ) -> bool {
        &&& row.created_at == token_created_at(token.last_validated, now)
        &&& access_token_from(token, row.session_id, row)
        &&& match token.device_id {
            Some(device_id) => {
                &&& session is None
                &&& !self.sessions.contains_key((user_id, device_id)) ==> id_timestamp(
                    row.session_id,
                ) == row.created_at@
                &&& after.sessions[(user_id, device_id)] == row.session_id
            },
            None => {
                &&& session is Some
                &&& deviceless_session_from(user_id, session->0)
                &&& session->0.session_id == row.session_id
                &&& session->0.created_at == row.created_at
            },
        }
        &&& after == self.after_access_token(token, user_id, row, session)
    }

    /// Reading the token pair `pair` of the user `user_id` in this state, at
    /// the time `now`, gives `access` and `refresh` and leads to the state
    /// `after`.
    ///
    /// Both tokens are dated by the time the access token was last
    /// validated, or by `now`, and join the session that the pair's device
    /// goes by, which is named now, and dated as the tokens are, where the
    /// device had none.
    pub open spec fn migrates_token_pair(
        self,
        pair: SynapseRefreshableTokenPairView,
        now: Timestamp,
        user_id: u128,
        access: MasNewCompatAccessTokenView,
        refresh: MasNewCompatRefreshTokenView,
        after: MigrationView,
    ) -> bool {
        &&& access.created_at == token_created_at(pair.last_validated, now)
        &&& token_pair_from(pair, access.session_id, access, refresh)
        &&& !self.sessions.contains_key((user_id, pair.device_id)) ==> id_timestamp(
            access.session_id,
        ) == access.created_at@
        &&& after.sessions[(user_id, pair.device_id)] == access.session_id
        &&& after == self.after_token_pair(pair, user_id, access, refresh)
    }

    /// Reading the device `device` of the user `user_id` in this state, at
    /// the time `now`, gives the session `row` and leads to the state
    /// `after`.
    ///
    /// The session goes by the name that the device has and is as old as
    /// that name says; a device that has none is named now and dated by
    /// `now`. Of the device's last address the session keeps `parsed_ip`;
    /// where nothing was read in the address, the text is `ignored_ip`.
    pub open spec fn migrates_device(
        self,
        device: SynapseDeviceView,
        parsed_ip: Option<IpAddress>,
        now: Timestamp,
        user_id: u128,
        row: MasNewCompatSessionView,
        ignored_ip: Option<Seq<char>>,
        after: MigrationView,
    ) -> bool {
        &&& device_session_from(
            device,
            user_id,
            row.session_id,
            self.admins.contains(user_id),
            row,
        )
        &&& row.last_active_ip == session_ip(device.ip, parsed_ip)
        &&& ignored_ip == (if parsed_ip is None {
            device.ip
        } else {
            None
        })
        &&& !self.sessions.contains_key((user_id, device.device_id)) ==> row.created_at@ == now@
        &&& after.sessions[(user_id, device.device_id)] == row.session_id
        &&& after == self.after_device(device, user_id, row)
    }

    /// Every localpart in the index stands for a user that was written under
    /// that name.
    pub open spec fn localparts_sound(self) -> bool {
        forall|localpart: Seq<char>| #[trigger]
            self.localparts.contains_key(localpart) ==> is_named_user(
                self.record.users,
                self.localparts[localpart],
                localpart,
            )
    }

    /// No table has been read before the stage of its turn.
    pub open spec fn nothing_read_early(self) -> bool {
        &&& self.stage.rank() < Stage::Threepids.rank() ==> self.record.synapse_threepids.len()
            == 0
        &&& self.stage.rank() < Stage::ExternalIds.rank()
            ==> self.record.synapse_external_ids.len() == 0
        &&& self.stage.rank() < Stage::UnrefreshableAccessTokens.rank()
            ==> self.record.synapse_access_tokens.len() == 0
        &&& self.stage.rank() < Stage::RefreshableTokenPairs.rank()
            ==> self.record.synapse_token_pairs.len() == 0
        &&& self.stage.rank() < Stage::Devices.rank() ==> self.record.synapse_devices.len() == 0
    }

    /// Until the first device is read, every session in the index was named
    /// by a token.
    pub open spec fn sessions_named_by_tokens(self) -> bool {
        self.record.synapse_devices.len() == 0 ==> forall|key: (u128, Seq<char>)| #[trigger]
            self.sessions.contains_key(key) ==> has_token(
                self.record.synapse_access_tokens,
                self.record.synapse_token_pairs,
                self.server_name,
                self.localparts,
                key,
            )
    }

    /// What holds of the state of every migration, at every point of its
    /// run.
    pub open spec fn inv(self) -> bool {
        &&& users_migrated(
            self.record.synapse_users,
            self.record.users,
            self.record.passwords,
            self.server_name,
        )
        &&& self.localparts_sound()
        &&& self.admins == self.record.admin_ids()
        &&& self.nothing_read_early()
        &&& threepids_migrated(
            self.record.synapse_threepids,
            self.record.threepids,
            self.server_name,
            self.localparts,
        )
        &&& links_migrated(
            self.record.synapse_external_ids,
            self.record.upstream_oauth_links,
            self.server_name,
            self.localparts,
            self.providers,
        )
        &&& access_tokens_migrated(
            self.record.synapse_access_tokens,
            self.record.access_tokens,
            self.record.deviceless_sessions,
            self.record.users,
            self.server_name,
            self.localparts,
            self.sessions,
        )
        &&& token_pairs_migrated(
            self.record.synapse_token_pairs,
            self.record.pair_access_tokens,
            self.record.refresh_tokens,
            self.server_name,
            self.localparts,
            self.sessions,
        )
        &&& devices_migrated(
            self.record.synapse_devices,
            self.record.device_sessions,
            self.server_name,
            self.localparts,
            self.sessions,
            self.admins,
        )
        &&& self.sessions_named_by_tokens()
        &&& sessions_dated_by_first_tokens(
            self.record.synapse_access_tokens,
            self.record.access_tokens,
            self.record.synapse_token_pairs,
            self.record.pair_access_tokens,
            self.server_name,
            self.localparts,
        )
    }
}

/// A source row that is resolved to a user is resolved to one that was
/// written.
pub proof fn lemma_resolved_is_user(state: MigrationView, user_id: Seq<char>, table: Seq<char>)
    requires
        state.inv(),
        resolve_user(user_id, state.server_name, state.localparts, table) is Ok,
    ensures
        state.record.has_user(
            resolve_user(user_id, state.server_name, state.localparts, table)->Ok_0,
        ),
{
    let localpart = localpart_of(user_id, state.server_name);
    assert(state.localparts.contains_key(localpart));
    lemma_named_user_is_user(state.record.users, state.localparts[localpart], localpart);
}

} // verus!
