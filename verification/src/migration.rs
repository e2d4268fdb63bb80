//! The migration itself: a state machine that is fed the source rows one by
//! one, stage after stage, and answers each with the rows to write.
//!
//! The stages follow the dependencies between the tables. Users come first,
//! because every other row belongs to a user. Tokens come before devices:
//! a device has no creation time of its own, so its session is named, and
//! thereby dated, by the first token seen for it, and written when the
//! device itself is read.

use crate::error::{Error, ErrorView};
use crate::ident::{id_timestamp, mint, timestamp_of, Timestamp};
use crate::localpart::{extract_localpart, is_user_of, lemma_localpart_unique, localpart_of};
use crate::mas::{
    IpAddress, MasNewCompatAccessToken, MasNewCompatAccessTokenView, MasNewCompatRefreshToken,
    MasNewCompatRefreshTokenView, MasNewCompatSession, MasNewCompatSessionView,
    MasNewEmailThreepid, MasNewThreepid, MasNewUnsupportedThreepid, MasNewUpstreamOauthLink,
    MasNewUser, MasNewUserPassword,
};
use crate::providers::ProviderMapping;
use crate::record::{
    access_token_key, has_token, is_first_access_token, is_first_token_pair, is_named_user,
    is_user_id, lemma_access_tokens_keep_sessions, lemma_access_tokens_push,
    lemma_count_with_password_push, lemma_devices_keep_sessions, lemma_devices_push,
    lemma_token_pairs_keep_sessions, lemma_token_pairs_push, lemma_users_push, link_migrated,
    name_session, opt_view, password_from, Record, resolve_link, resolve_user,
    sessions_dated_by_first_tokens, threepid_migrated, token_pair_key, user_from,
};
use crate::session_index::SessionIndex;
use crate::state::{lemma_resolved_is_user, MigrationView, Stage};
use crate::synapse::{
    opt_text, SynapseAccessToken, SynapseAccessTokenView, SynapseDevice, SynapseExternalId,
    SynapseRefreshableTokenPair, SynapseRefreshableTokenPairView, SynapseThreepid, SynapseUser,
};
use crate::text::text_eq;
use rand::rngs::StdRng;
use std::collections::HashSet;
use vstd::hash_map::StringHashMap;
use vstd::prelude::*;

verus! {

broadcast use vstd::std_specs::hash::group_hash_axioms;

/// A migration in progress: the indexes that later stages look users and
/// sessions up in, and the stage that the run has reached.
pub struct Migration {
    server_name: String,
    stage: Stage,
    provider_id_mapping: ProviderMapping,
    user_localparts_to_uuid: StringHashMap<u128>,
    synapse_admins: HashSet<u128>,
    devices_to_compat_sessions: SessionIndex,
    record: Ghost<Record>,
}

impl View for Migration {
    type V = MigrationView;

    closed spec fn view(&self) -> MigrationView {
        MigrationView {
            server_name: self.server_name@,
            stage: self.stage,
            providers: self.provider_id_mapping@,
            localparts: self.user_localparts_to_uuid@,
            admins: self.synapse_admins@,
            sessions: self.devices_to_compat_sessions@,
            record: self.record@,
        }
    }
}

/// Turns a source user into the destination user, and into the password row
/// where the user has a password. Both rows are dated by the user's creation
/// time; a deactivated user is locked from the start.
///
/// Fails where the user's name is not a user ID of `server_name`.
pub fn transform_user(user: &SynapseUser, server_name: &str, rng: &mut StdRng) -> (rows:
    Result<(MasNewUser, Option<MasNewUserPassword>), Error>)
    ensures
        match rows {
            Ok((new_user, password)) => {
                &&& user_from(user@, server_name@, new_user@)
                &&& password_from(user@, new_user@, opt_view(password))
            },
            Err(error) => {
                &&& !is_user_of(user.name@, server_name@)
                &&& error@ == (ErrorView::InvalidUserId { user: user.name@ })
            },
        },
{
    let username = extract_localpart(user.name.as_str(), server_name)?;
    let user_id = mint(user.creation_ts, rng);
    let new_user = MasNewUser {
        user_id,
        username,
        created_at: user.creation_ts,
        locked_at: if user.deactivated {
            Some(user.creation_ts)
        } else {
            None
        },
        can_request_admin: user.admin,
    };
    let password = match &user.password_hash {
        Some(password_hash) => Some(
            MasNewUserPassword {
                user_password_id: mint(user.creation_ts, rng),
                user_id,
                hashed_password: password_hash.clone(),
                created_at: user.creation_ts,
            },
        ),
        None => None,
    };
    Ok((new_user, password))
}

impl Migration {
    /// The state is one that a migration can reach.
    pub open spec fn wf(&self) -> bool {
        self@.inv()
    }

    /// A migration of the homeserver `server_name` that has not read
    /// anything yet. The two counts are estimates of the number of users
    /// and devices to come; they size the indexes and nothing else.
    pub fn new(
        server_name: String,
        provider_id_mapping: ProviderMapping,
        user_count_hint: usize,
        device_count_hint: usize,
    ) -> (migration: Self)
        ensures
            migration.wf(),
            migration@ == (MigrationView {
                server_name: server_name@,
                stage: Stage::Users,
                providers: provider_id_mapping@,
                localparts: Map::empty(),
                admins: Set::empty(),
                sessions: Map::empty(),
                record: Record::empty(),
            }),
    {
        let migration = Migration {
            server_name,
            stage: Stage::Users,
            provider_id_mapping,
            user_localparts_to_uuid: StringHashMap::with_capacity(user_count_hint),
            synapse_admins: HashSet::new(),
            devices_to_compat_sessions: SessionIndex::with_capacity(device_count_hint),
            record: Ghost(Record::empty()),
        };
        assert(migration@.admins =~= migration@.record.admin_ids());
        assert(migration@.admins =~= Set::<u128>::empty());
        migration
    }

    /// The table being read.
    pub fn stage(&self) -> (stage: Stage)
        ensures
            stage == self@.stage,
    {
        self.stage
    }

    /// The destination ID of the user that goes by `localpart`, if such a
    /// user was migrated.
    pub fn user_id(&self, localpart: &str) -> (user_id: Option<u128>)
        ensures
            user_id == if self@.localparts.contains_key(localpart@) {
                Some(self@.localparts[localpart@])
            } else {
                None
            },
    {
        match self.user_localparts_to_uuid.get(localpart) {
            Some(user_id) => Some(*user_id),
            None => None,
        }
    }

    /// Whether `user_id` is the destination ID of an administrator.
    pub fn is_synapse_admin(&self, user_id: u128) -> (is_admin: bool)
        ensures
            is_admin == self@.admins.contains(user_id),
    {
        self.synapse_admins.contains(&user_id)
    }

    /// The session named for the device `device_id` of the user `user_id`,
    /// if one was named.
    pub fn session_id(&self, user_id: u128, device_id: &str) -> (session_id: Option<u128>)
        ensures
            session_id == if self@.sessions.contains_key((user_id, device_id@)) {
                Some(self@.sessions[(user_id, device_id@)])
            } else {
                None
            },
    {
        self.devices_to_compat_sessions.get(user_id, device_id)
    }

    /// Ends the reading of the current table and turns to the next one.
    pub fn advance(&mut self)
        requires
            old(self).wf(),
        ensures
            final(self).wf(),
            final(self)@ == (MigrationView { stage: old(self)@.stage.next(), ..old(self)@ }),
    {
        self.stage = match self.stage {
            Stage::Users => Stage::Threepids,
            Stage::Threepids => Stage::ExternalIds,
            Stage::ExternalIds => Stage::UnrefreshableAccessTokens,
            Stage::UnrefreshableAccessTokens => Stage::RefreshableTokenPairs,
            Stage::RefreshableTokenPairs => Stage::Devices,
            Stage::Devices => Stage::Done,
            Stage::Done => Stage::Done,
        };
    }

    /// Migrates one user: returns the rows to write for it, notes the
    /// user's destination ID under the localpart, and notes that ID among
    /// the administrators where the user is one.
    ///
    /// Fails, and leaves the migration as it was, where the user's name is
    /// not a user ID of the homeserver.
    pub fn migrate_user(&mut self, user: &SynapseUser, rng: &mut StdRng) -> (rows:
        Result<(MasNewUser, Option<MasNewUserPassword>), Error>)
        requires
            old(self).wf(),
            old(self)@.stage == Stage::Users,
        ensures
            final(self).wf(),
            match rows {
                Ok((new_user, password)) => old(self)@.migrates_user(
                    user@,
                    new_user@,
                    opt_view(password),
                    final(self)@,
                ),
                Err(error) => {
                    &&& !is_user_of(user.name@, old(self)@.server_name)
                    &&& error@ == (ErrorView::InvalidUserId { user: user.name@ })
                    &&& final(self)@ == old(self)@
                },
            },
    {
        let (new_user, password) = transform_user(user, self.server_name.as_str(), rng)?;
        if user.admin {
            self.synapse_admins.insert(new_user.user_id);
        }
        self.user_localparts_to_uuid.insert(new_user.username.clone(), new_user.user_id);
        proof {
            let before = old(self)@.record;
            let after = before.with_user(user@, new_user@, opt_view(password));
            self.record@ = after;
            lemma_count_with_password_push(before.synapse_users, user@);
            lemma_users_push(before.users, new_user@);
            assert(after.users[before.users.len() as int] == new_user@);
            assert forall|k: int| 0 <= k < after.passwords.len() implies (
            #[trigger] after.passwords[k]).dated() && is_user_id(
                after.users,
                after.passwords[k].user_id,
            ) by {
                if k < before.passwords.len() {
                    assert(is_user_id(before.users, before.passwords[k].user_id));
                }
            }
            assert forall|localpart: Seq<char>| #[trigger]
                self@.localparts.contains_key(localpart) implies is_named_user(
                after.users,
                self@.localparts[localpart],
                localpart,
            ) by {
                if localpart != new_user@.username {
                    assert(old(self)@.localparts.contains_key(localpart));
                    assert(is_named_user(
                        before.users,
                        old(self)@.localparts[localpart],
                        localpart,
                    ));
                }
            }
            assert(self@.admins =~= after.admin_ids()) by {
                assert forall|id: u128| self@.admins.contains(id) implies after.admin_ids().contains(
                    id,
                ) by {
                    if old(self)@.admins.contains(id) {
                        let i = choose|i: int|
                            0 <= i < before.users.len() && i < before.synapse_users.len()
                                && before.synapse_users[i].admin
                                && #[trigger] before.users[i].user_id == id;
                        assert(after.synapse_users[i].admin && after.users[i].user_id == id);
                    } else {
                        let i = before.users.len() as int;
                        assert(after.synapse_users[i].admin && after.users[i].user_id == id);
                    }
                }
                assert forall|id: u128| after.admin_ids().contains(id) implies self@.admins.contains(
                    id,
                ) by {
                    let i = choose|i: int|
                        0 <= i < after.users.len() && i < after.synapse_users.len()
                            && after.synapse_users[i].admin && #[trigger] after.users[i].user_id
                            == id;
                    if i < before.users.len() {
                        assert(before.synapse_users[i].admin && before.users[i].user_id == id);
                        assert(before.admin_ids().contains(id));
                    }
                }
            }
        }
        Ok((new_user, password))
    }

    /// Finds the destination user that a row of `table` belongs to, by the
    /// source user ID that the row carries.
    fn find_user(&self, user_id: &str, table: &str) -> (found: Result<u128, Error>)
        ensures
            match resolve_user(user_id@, self@.server_name, self@.localparts, table@) {
                Ok(id) => found == Ok::<u128, Error>(id),
                Err(error) => found is Err && found->Err_0@ == error,
            },
    {
        let localpart = extract_localpart(user_id, self.server_name.as_str())?;
        proof {
            assert(is_user_of(user_id@, self@.server_name));
            lemma_localpart_unique(
                localpart@,
                localpart_of(user_id@, self@.server_name),
                user_id@,
                self@.server_name,
            );
        }
        match self.user_localparts_to_uuid.get(localpart.as_str()) {
            Some(id) => Ok(*id),
            None => Err(
                Error::MissingUserFromDependentTable {
                    table: table.to_owned(),
                    user: user_id.to_owned(),
                },
            ),
        }
    }

    /// Migrates one third-party identifier: an email address becomes an
    /// email row, dated by the time the address was added; an identifier of
    /// any other medium is kept as it is.
    ///
    /// Fails, and leaves the migration as it was, where the row's user ID is
    /// not one of the homeserver, or names a user that was not migrated.
    pub fn migrate_threepid(&mut self, threepid: SynapseThreepid, rng: &mut StdRng) -> (row:
        Result<MasNewThreepid, Error>)
        requires
            old(self).wf(),
            old(self)@.stage == Stage::Threepids,
        ensures
            final(self).wf(),
            match resolve_user(
                threepid.user_id@,
                old(self)@.server_name,
                old(self)@.localparts,
                "user_threepids"@,
            ) {
                Ok(user_id) => {
                    &&& row is Ok
                    &&& old(self)@.migrates_threepid(
                        threepid@,
                        user_id,
                        row->Ok_0@,
                        final(self)@,
                    )
                },
                Err(error) => {
                    &&& row is Err
                    &&& row->Err_0@ == error
                    &&& final(self)@ == old(self)@
                },
            },
    {
        let ghost source = threepid@;
        let SynapseThreepid { user_id: synapse_user_id, medium, address, added_at } = threepid;
        let user_id = self.find_user(synapse_user_id.as_str(), "user_threepids")?;
        let row = if text_eq(medium.as_str(), "email") {
            MasNewThreepid::Email(
                MasNewEmailThreepid {
                    user_email_id: mint(added_at, rng),
                    user_id,
                    email: address,
                    created_at: added_at,
                },
            )
        } else {
            MasNewThreepid::Unsupported(
                MasNewUnsupportedThreepid { user_id, medium, address, created_at: added_at },
            )
        };
        proof {
            let before = old(self)@.record;
            let after = before.with_threepid(source, row@);
            self.record@ = after;
            assert forall|i: int| 0 <= i < after.threepids.len() implies #[trigger] threepid_migrated(
                after.synapse_threepids,
                after.threepids,
                self@.server_name,
                self@.localparts,
                i,
            ) by {
                if i < before.threepids.len() {
                    assert(threepid_migrated(
                        before.synapse_threepids,
                        before.threepids,
                        self@.server_name,
                        self@.localparts,
                        i,
                    ));
                }
            }
        }
        Ok(row)
    }

    /// Migrates one link to an upstream provider. The source keeps no time
    /// for a link, so the link is dated by the time that the ID of its user
    /// carries.
    ///
    /// Fails, and leaves the migration as it was, where the row's user ID is
    /// not one of the homeserver, names a user that was not migrated, or
    /// where no upstream provider was given for the row's auth provider.
    pub fn migrate_external_id(
        &mut self,
        external_id: SynapseExternalId,
        rng: &mut StdRng,
    ) -> (row: Result<MasNewUpstreamOauthLink, Error>)
        requires
            old(self).wf(),
            old(self)@.stage == Stage::ExternalIds,
        ensures
            final(self).wf(),
            match resolve_link(
                external_id@,
                old(self)@.server_name,
                old(self)@.localparts,
                old(self)@.providers,
            ) {
                Ok((user_id, provider_id)) => {
                    &&& row is Ok
                    &&& old(self)@.migrates_external_id(
                        external_id@,
                        user_id,
                        provider_id,
                        row->Ok_0@,
                        final(self)@,
                    )
                },
                Err(error) => {
                    &&& row is Err
                    &&& row->Err_0@ == error
                    &&& final(self)@ == old(self)@
                },
            },
    {
        let ghost source = external_id@;
        let SynapseExternalId { user_id: synapse_user_id, auth_provider, external_id: subject } =
            external_id;
        let user_id = self.find_user(synapse_user_id.as_str(), "user_external_ids")?;
        let upstream_provider_id = match self.provider_id_mapping.get(auth_provider.as_str()) {
            Some(provider_id) => provider_id,
            None => {
                return Err(
                    Error::MissingAuthProviderMapping {
                        synapse_id: auth_provider,
                        user: synapse_user_id,
                    },
                );
            },
        };
        let user_created_ts = timestamp_of(user_id);
        let row = MasNewUpstreamOauthLink {
            link_id: mint(user_created_ts, rng),
            user_id,
            upstream_provider_id,
            subject,
            created_at: user_created_ts,
        };
        proof {
            let before = old(self)@.record;
            let after = before.with_external_id(source, row@);
            self.record@ = after;
            assert forall|i: int|
                0 <= i < after.upstream_oauth_links.len() implies #[trigger] link_migrated(
                after.synapse_external_ids,
                after.upstream_oauth_links,
                self@.server_name,
                self@.localparts,
                self@.providers,
                i,
            ) by {
                if i < before.upstream_oauth_links.len() {
                    assert(link_migrated(
                        before.synapse_external_ids,
                        before.upstream_oauth_links,
                        self@.server_name,
                        self@.localparts,
                        self@.providers,
                        i,
                    ));
                }
            }
        }
        Ok(row)
    }

    /// The session that stands for the device `device_id` of the user
    /// `user_id`: the one named for it before or, where none was, one that
    /// is named now and dated by `created_at`.
    fn session_for(
        &mut self,
        user_id: u128,
        device_id: &str,
        created_at: Timestamp,
        rng: &mut StdRng,
    ) -> (session_id: u128)
        ensures
            final(self)@ == (MigrationView {
                sessions: name_session(old(self)@.sessions, (user_id, device_id@), session_id),
                ..old(self)@
            }),
            final(self)@.sessions.contains_key((user_id, device_id@)),
            final(self)@.sessions[(user_id, device_id@)] == session_id,
            !old(self)@.sessions.contains_key((user_id, device_id@)) ==> id_timestamp(session_id)
                == created_at@,
    {
        match self.devices_to_compat_sessions.get(user_id, device_id) {
            Some(session_id) => session_id,
            None => {
                let session_id = mint(created_at, rng);
                self.devices_to_compat_sessions.insert(user_id, device_id.to_owned(), session_id);
                session_id
            },
        }
    }

    /// Migrates one access token that has no refresh token. The token is
    /// dated by the time it was last validated, or by `now` where that is
    /// not known.
    ///
    /// A token of a device joins the session named for that device, which
    /// is named now where this is the first token seen for the device; the
    /// session itself is written when the device is read. A token of no
    /// device gets a session of its own, which is returned to be written.
    ///
    /// Fails, and leaves the migration as it was, where the row's user ID is
    /// not one of the homeserver, or names a user that was not migrated.
    pub fn migrate_unrefreshable_access_token(
        &mut self,
        token: SynapseAccessToken,
        now: Timestamp,
        rng: &mut StdRng,
    ) -> (rows: Result<(MasNewCompatAccessToken, Option<MasNewCompatSession>), Error>)
        requires
            old(self).wf(),
            old(self)@.stage == Stage::UnrefreshableAccessTokens,
        ensures
            final(self).wf(),
            match resolve_user(
                token.user_id@,
                old(self)@.server_name,
                old(self)@.localparts,
                "access_tokens"@,
            ) {
                Ok(user_id) => {
                    &&& rows is Ok
                    &&& old(self)@.migrates_access_token(
                        token@,
                        now,
                        user_id,
                        rows->Ok_0.0@,
                        opt_view(rows->Ok_0.1),
                        final(self)@,
                    )
                },
                Err(error) => {
                    &&& rows is Err
                    &&& rows->Err_0@ == error
                    &&& final(self)@ == old(self)@
                },
            },
    {
        let ghost source = token@;
        let SynapseAccessToken {
            user_id: synapse_user_id,
            device_id,
            token: access_token,
            valid_until_ms,
            last_validated,
        } = token;
        let user_id = self.find_user(synapse_user_id.as_str(), "access_tokens")?;
        let created_at = match last_validated {
            Some(last_validated) => last_validated,
            None => now,
        };
        let ghost key = (user_id, arbitrary::<Seq<char>>());
        let (session_id, session) = match device_id {
            Some(device_id) => {
                proof {
                    key = (user_id, device_id@);
                }
                (self.session_for(user_id, device_id.as_str(), created_at, rng), None)
            },
            None => {
                let session_id = mint(created_at, rng);
                (
                    session_id,
                    Some(
                        MasNewCompatSession {
                            session_id,
                            user_id,
                            device_id: None,
                            human_name: None,
                            created_at,
                            is_synapse_admin: false,
                            last_active_at: None,
                            last_active_ip: None,
                            user_agent: None,
                        },
                    ),
                )
            },
        };
        let row = MasNewCompatAccessToken {
            token_id: mint(created_at, rng),
            session_id,
            access_token,
            created_at,
            expires_at: valid_until_ms,
        };
        proof {
            let before = old(self)@;
            let sessions = self@.sessions;
            if source.device_id is Some {
                lemma_access_tokens_keep_sessions(
                    before.record.synapse_access_tokens,
                    before.record.access_tokens,
                    before.record.deviceless_sessions,
                    before.record.users,
                    before.server_name,
                    before.localparts,
                    before.sessions,
                    key,
                    session_id,
                );
                lemma_token_pairs_keep_sessions(
                    before.record.synapse_token_pairs,
                    before.record.pair_access_tokens,
                    before.record.refresh_tokens,
                    before.server_name,
                    before.localparts,
                    before.sessions,
                    key,
                    session_id,
                );
                lemma_devices_keep_sessions(
                    before.record.synapse_devices,
                    before.record.device_sessions,
                    before.server_name,
                    before.localparts,
                    before.sessions,
                    before.admins,
                    key,
                    session_id,
                );
            }
            lemma_resolved_is_user(before, source.user_id, "access_tokens"@);
            lemma_access_tokens_push(
                before.record.synapse_access_tokens,
                before.record.access_tokens,
                before.record.deviceless_sessions,
                before.record.users,
                before.server_name,
                before.localparts,
                sessions,
                source,
                row@,
                opt_view(session),
            );
            self.record@ = before.record.with_access_token(source, row@, opt_view(session));
            lemma_access_token_names_session(
                before,
                self@,
                source,
                user_id,
                row@,
                opt_view(session),
            );
        }
        Ok((row, session))
    }

    /// Migrates one access token together with its refresh token. Both are
    /// dated by the time the access token was last validated, or by `now`
    /// where that is not known, and both join the session named for the
    /// pair's device, which is named now where nothing was seen of the
    /// device before.
    ///
    /// Fails, and leaves the migration as it was, where the row's user ID is
    /// not one of the homeserver, or names a user that was not migrated.
    pub fn migrate_refreshable_token_pair(
        &mut self,
        pair: SynapseRefreshableTokenPair,
        now: Timestamp,
        rng: &mut StdRng,
    ) -> (rows: Result<(MasNewCompatAccessToken, MasNewCompatRefreshToken), Error>)
        requires
            old(self).wf(),
            old(self)@.stage == Stage::RefreshableTokenPairs,
        ensures
            final(self).wf(),
            match resolve_user(
                pair.user_id@,
                old(self)@.server_name,
                old(self)@.localparts,
                "refresh_tokens"@,
            ) {
                Ok(user_id) => {
                    &&& rows is Ok
                    &&& old(self)@.migrates_token_pair(
                        pair@,
                        now,
                        user_id,
                        rows->Ok_0.0@,
                        rows->Ok_0.1@,
                        final(self)@,
                    )
                },
                Err(error) => {
                    &&& rows is Err
                    &&& rows->Err_0@ == error
                    &&& final(self)@ == old(self)@
                },
            },
    {
        let ghost source = pair@;
        let SynapseRefreshableTokenPair {
            user_id: synapse_user_id,
            device_id,
            access_token,
            refresh_token,
            valid_until_ms,
            last_validated,
        } = pair;
        let user_id = self.find_user(synapse_user_id.as_str(), "refresh_tokens")?;
        let created_at = match last_validated {
            Some(last_validated) => last_validated,
            None => now,
        };
        let session_id = self.session_for(user_id, device_id.as_str(), created_at, rng);
        let access_token_id = mint(created_at, rng);
        let refresh_token_id = mint(created_at, rng);
        let access = MasNewCompatAccessToken {
            token_id: access_token_id,
            session_id,
            access_token,
            created_at,
            expires_at: valid_until_ms,
        };
        let refresh = MasNewCompatRefreshToken {
            refresh_token_id,
            session_id,
            access_token_id,
            refresh_token,
            created_at,
        };
        proof {
            let before = old(self)@;
            let sessions = self@.sessions;
            let key = (user_id, source.device_id);
            lemma_access_tokens_keep_sessions(
                before.record.synapse_access_tokens,
                before.record.access_tokens,
                before.record.deviceless_sessions,
                before.record.users,
                before.server_name,
                before.localparts,
                before.sessions,
                key,
                session_id,
            );
            lemma_token_pairs_keep_sessions(
                before.record.synapse_token_pairs,
                before.record.pair_access_tokens,
                before.record.refresh_tokens,
                before.server_name,
                before.localparts,
                before.sessions,
                key,
                session_id,
            );
            lemma_devices_keep_sessions(
                before.record.synapse_devices,
                before.record.device_sessions,
                before.server_name,
                before.localparts,
                before.sessions,
                before.admins,
                key,
                session_id,
            );
            lemma_token_pairs_push(
                before.record.synapse_token_pairs,
                before.record.pair_access_tokens,
                before.record.refresh_tokens,
                before.server_name,
                before.localparts,
                sessions,
                source,
                access@,
                refresh@,
            );
            self.record@ = before.record.with_token_pair(source, access@, refresh@);
            lemma_token_pair_names_session(before, self@, source, user_id, access@, refresh@);
        }
        Ok((access, refresh))
    }

    /// Migrates one device: returns its session, to be written. The session
    /// goes by the name that a token gave it and is as old as that name
    /// says; a device that no token was seen for is named now and dated by
    /// `now`. The session is one of an administrator where its user is one.
    ///
    /// `parsed_ip` is what the destination's address type reads in the
    /// device's last address, if it reads one. Text that it reads nothing in
    /// is left out of the session and returned beside it, to be reported;
    /// the migration goes on.
    ///
    /// Fails, and leaves the migration as it was, where the row's user ID is
    /// not one of the homeserver, or names a user that was not migrated.
    pub fn migrate_device(
        &mut self,
        device: SynapseDevice,
        parsed_ip: Option<IpAddress>,
        now: Timestamp,
        rng: &mut StdRng,
    ) -> (rows: Result<(MasNewCompatSession, Option<String>), Error>)
        requires
            old(self).wf(),
            old(self)@.stage == Stage::Devices,
        ensures
            final(self).wf(),
            match resolve_user(
                device.user_id@,
                old(self)@.server_name,
                old(self)@.localparts,
                "devices"@,
            ) {
                Ok(user_id) => {
                    &&& rows is Ok
                    &&& old(self)@.migrates_device(
                        device@,
                        parsed_ip,
                        now,
                        user_id,
                        rows->Ok_0.0@,
                        opt_text(rows->Ok_0.1),
                        final(self)@,
                    )
                },
                Err(error) => {
                    &&& rows is Err
                    &&& rows->Err_0@ == error
                    &&& final(self)@ == old(self)@
                },
            },
    {
        let ghost source = device@;
        let SynapseDevice {
            user_id: synapse_user_id,
            device_id,
            display_name,
            last_seen,
            ip,
            user_agent,
        } = device;
        let user_id = self.find_user(synapse_user_id.as_str(), "devices")?;
        let session_id = self.session_for(user_id, device_id.as_str(), now, rng);
        let created_at = timestamp_of(session_id);
        let (last_active_ip, ignored_ip) = match ip {
            Some(ip) => match parsed_ip {
                Some(parsed_ip) => (Some(parsed_ip), None),
                None => (None, Some(ip)),
            },
            None => (None, None),
        };
        let row = MasNewCompatSession {
            session_id,
            user_id,
            device_id: Some(device_id),
            human_name: display_name,
            created_at,
            is_synapse_admin: self.synapse_admins.contains(&user_id),
            last_active_at: last_seen,
            last_active_ip,
            user_agent,
        };
        proof {
            let before = old(self)@;
            let sessions = self@.sessions;
            let key = (user_id, source.device_id);
            lemma_access_tokens_keep_sessions(
                before.record.synapse_access_tokens,
                before.record.access_tokens,
                before.record.deviceless_sessions,
                before.record.users,
                before.server_name,
                before.localparts,
                before.sessions,
                key,
                session_id,
            );
            lemma_token_pairs_keep_sessions(
                before.record.synapse_token_pairs,
                before.record.pair_access_tokens,
                before.record.refresh_tokens,
                before.server_name,
                before.localparts,
                before.sessions,
                key,
                session_id,
            );
            lemma_devices_keep_sessions(
                before.record.synapse_devices,
                before.record.device_sessions,
                before.server_name,
                before.localparts,
                before.sessions,
                before.admins,
                key,
                session_id,
            );
            lemma_devices_push(
                before.record.synapse_devices,
                before.record.device_sessions,
                before.server_name,
                before.localparts,
                sessions,
                before.admins,
                source,
                row@,
            );
            self.record@ = before.record.with_device(source, row@);
        }
        Ok((row, ignored_ip))
    }
}

/// After an access token is read in its stage, every session in the index
/// is still one that a token named, and every session is still as old as
/// the first token of its device.
proof fn lemma_access_token_names_session(
    before: MigrationView,
    after: MigrationView,
    token: SynapseAccessTokenView,
    user_id: u128,
    row: MasNewCompatAccessTokenView,
    session: Option<MasNewCompatSessionView>,
)
    requires
        before.inv(),
        before.stage == Stage::UnrefreshableAccessTokens,
        resolve_user(token.user_id, before.server_name, before.localparts, "access_tokens"@)
            == Ok::<u128, ErrorView>(user_id),
        after == before.after_access_token(token, user_id, row, session),
        token.device_id is Some && !before.sessions.contains_key((user_id, token.device_id->0))
            ==> id_timestamp(row.session_id) == row.created_at@,
    ensures
        after.sessions_named_by_tokens(),
        sessions_dated_by_first_tokens(
            after.record.synapse_access_tokens,
            after.record.access_tokens,
            after.record.synapse_token_pairs,
            after.record.pair_access_tokens,
            after.server_name,
            after.localparts,
        ),
{
    let tokens = before.record.synapse_access_tokens;
    let tokens_after = after.record.synapse_access_tokens;
    let pairs = before.record.synapse_token_pairs;
    let server_name = before.server_name;
    let localparts = before.localparts;
    let n = tokens.len() as int;
    assert(before.stage.rank() == 3);
    assert(pairs.len() == 0);
    assert(before.record.synapse_devices.len() == 0);
    assert forall|h: int| 0 <= h < n implies #[trigger] access_token_key(
        tokens_after,
        server_name,
        localparts,
        h,
    ) == access_token_key(tokens, server_name, localparts, h) by {
        assert(tokens_after[h] == tokens[h]);
    }
    assert forall|i: int|
        0 <= i < after.record.access_tokens.len() && #[trigger] is_first_access_token(
            tokens_after,
            server_name,
            localparts,
            i,
        ) implies id_timestamp(after.record.access_tokens[i].session_id)
        == after.record.access_tokens[i].created_at@ by {
        if i < n {
            assert forall|h: int| 0 <= h < i implies #[trigger] access_token_key(
                tokens,
                server_name,
                localparts,
                h,
            ) != access_token_key(tokens, server_name, localparts, i) by {
                assert(access_token_key(tokens_after, server_name, localparts, h)
                    != access_token_key(tokens_after, server_name, localparts, i));
            }
            assert(is_first_access_token(tokens, server_name, localparts, i));
            assert(after.record.access_tokens[i] == before.record.access_tokens[i]);
        } else {
            let key = access_token_key(tokens_after, server_name, localparts, n)->0;
            if before.sessions.contains_key(key) {
                assert(has_token(tokens, pairs, server_name, localparts, key));
                let h = choose|h: int|
                    0 <= h < tokens.len() && #[trigger] access_token_key(
                        tokens,
                        server_name,
                        localparts,
                        h,
                    ) == Some(key);
                assert(access_token_key(tokens_after, server_name, localparts, h)
                    != access_token_key(tokens_after, server_name, localparts, n));
            }
        }
    }
    assert forall|key: (u128, Seq<char>)| #[trigger]
        after.sessions.contains_key(key) implies has_token(
        tokens_after,
        after.record.synapse_token_pairs,
        server_name,
        localparts,
        key,
    ) by {
        if before.sessions.contains_key(key) {
            assert(has_token(tokens, pairs, server_name, localparts, key));
            let h = choose|h: int|
                0 <= h < tokens.len() && #[trigger] access_token_key(
                    tokens,
                    server_name,
                    localparts,
                    h,
                ) == Some(key);
            assert(access_token_key(tokens_after, server_name, localparts, h) == Some(key));
        } else {
            assert(access_token_key(tokens_after, server_name, localparts, n) == Some(key));
        }
    }
}

/// After a token pair is read in its stage, every session in the index is
/// still one that a token named, and every session is still as old as the
/// first token of its device.
proof fn lemma_token_pair_names_session(
    before: MigrationView,
    after: MigrationView,
    pair: SynapseRefreshableTokenPairView,
    user_id: u128,
    access: MasNewCompatAccessTokenView,
    refresh: MasNewCompatRefreshTokenView,
)
    requires
        before.inv(),
        before.stage == Stage::RefreshableTokenPairs,
        resolve_user(pair.user_id, before.server_name, before.localparts, "refresh_tokens"@)
            == Ok::<u128, ErrorView>(user_id),
        after == before.after_token_pair(pair, user_id, access, refresh),
        !before.sessions.contains_key((user_id, pair.device_id)) ==> id_timestamp(
            access.session_id,
        ) == access.created_at@,
    ensures
        after.sessions_named_by_tokens(),
        sessions_dated_by_first_tokens(
            after.record.synapse_access_tokens,
            after.record.access_tokens,
            after.record.synapse_token_pairs,
            after.record.pair_access_tokens,
            after.server_name,
            after.localparts,
        ),
{
    let tokens = before.record.synapse_access_tokens;
    let pairs = before.record.synapse_token_pairs;
    let pairs_after = after.record.synapse_token_pairs;
    let server_name = before.server_name;
    let localparts = before.localparts;
    let n = pairs.len() as int;
    let key = token_pair_key(pairs_after, server_name, localparts, n);
    assert(before.stage.rank() == 4);
    assert(before.record.synapse_devices.len() == 0);
    assert forall|h: int| 0 <= h < n implies #[trigger] token_pair_key(
        pairs_after,
        server_name,
        localparts,
        h,
    ) == token_pair_key(pairs, server_name, localparts, h) by {
        assert(pairs_after[h] == pairs[h]);
    }
    assert forall|i: int|
        0 <= i < after.record.pair_access_tokens.len() && #[trigger] is_first_token_pair(
            tokens,
            pairs_after,
            server_name,
            localparts,
            i,
        ) implies id_timestamp(after.record.pair_access_tokens[i].session_id)
        == after.record.pair_access_tokens[i].created_at@ by {
        if i < n {
            assert forall|h: int| 0 <= h < i implies #[trigger] token_pair_key(
                pairs,
                server_name,
                localparts,
                h,
            ) != token_pair_key(pairs, server_name, localparts, i) by {
                assert(token_pair_key(pairs_after, server_name, localparts, h) != token_pair_key(
                    pairs_after,
                    server_name,
                    localparts,
                    i,
                ));
            }
            assert(is_first_token_pair(tokens, pairs, server_name, localparts, i));
            assert(after.record.pair_access_tokens[i] == before.record.pair_access_tokens[i]);
        } else {
            if before.sessions.contains_key(key) {
                assert(has_token(tokens, pairs, server_name, localparts, key));
                if exists|h: int|
                    0 <= h < tokens.len() && #[trigger] access_token_key(
                        tokens,
                        server_name,
                        localparts,
                        h,
                    ) == Some(key) {
                    let h = choose|h: int|
                        0 <= h < tokens.len() && #[trigger] access_token_key(
                            tokens,
                            server_name,
                            localparts,
                            h,
                        ) == Some(key);
                    assert(access_token_key(tokens, server_name, localparts, h) != Some(key));
                } else {
                    let h = choose|h: int|
                        0 <= h < pairs.len() && #[trigger] token_pair_key(
                            pairs,
                            server_name,
                            localparts,
                            h,
                        ) == key;
                    assert(token_pair_key(pairs_after, server_name, localparts, h)
                        != token_pair_key(pairs_after, server_name, localparts, n));
                }
            }
        }
    }
    assert forall|other: (u128, Seq<char>)| #[trigger]
        after.sessions.contains_key(other) implies has_token(
        tokens,
        pairs_after,
        server_name,
        localparts,
        other,
    ) by {
        if before.sessions.contains_key(other) {
            assert(has_token(tokens, pairs, server_name, localparts, other));
            if !(exists|h: int|
                0 <= h < tokens.len() && #[trigger] access_token_key(
                    tokens,
                    server_name,
                    localparts,
                    h,
                ) == Some(other)) {
                let h = choose|h: int|
                    0 <= h < pairs.len() && #[trigger] token_pair_key(
                        pairs,
                        server_name,
                        localparts,
                        h,
                    ) == other;
                assert(token_pair_key(pairs_after, server_name, localparts, h) == other);
            }
        } else {
            assert(token_pair_key(pairs_after, server_name, localparts, n) == other);
        }
    }
}

} // verus!
