//! The migration together with its write buffers: rows go in, batches come
//! out.
//!
//! Every stage of the migration fills the buffers of the tables it writes
//! to, and empties them before the next stage begins. What a call returns is
//! to be inserted, in the order given, before the next call is made.

use crate::error::{Error, ErrorView};
use crate::ident::Timestamp;
use crate::localpart::is_user_of;
use crate::mas::{
    IpAddress, MasNewCompatAccessToken, MasNewCompatAccessTokenView, MasNewCompatRefreshToken,
    MasNewCompatRefreshTokenView, MasNewCompatSession, MasNewCompatSessionView,
    MasNewEmailThreepid, MasNewEmailThreepidView, MasNewThreepid, MasNewThreepidView,
    MasNewUnsupportedThreepid, MasNewUnsupportedThreepidView, MasNewUpstreamOauthLink,
    MasNewUpstreamOauthLinkView, MasNewUser, MasNewUserPassword, MasNewUserPasswordView,
    MasNewUserView,
};
use crate::migration::Migration;
use crate::state::{MigrationView, Stage};
use crate::providers::ProviderMapping;
use crate::record::{resolve_link, resolve_user, Record};
use crate::synapse::{
    opt_text, SynapseAccessToken, SynapseDevice, SynapseExternalId,
    SynapseRefreshableTokenPair, SynapseThreepid, SynapseUser,
};
use crate::write_buffer::{MasWriteBuffer, WRITE_BUFFER_BATCH_SIZE};
use rand::rngs::StdRng;
use vstd::prelude::*;

verus! {

/// The views of `rows`, in the same order.
pub open spec fn views<T: View>(rows: Seq<T>) -> Seq<T::V> {
    rows.map_values(|row: T| row@)
}

/// The views of the rows of `batch`; none where there is no batch.
pub open spec fn batch_views<T: View>(batch: Option<Vec<T>>) -> Seq<T::V> {
    match batch {
        Some(batch) => views(batch@),
        None => Seq::empty(),
    }
}

/// A batch, where there is one, is a full one.
pub open spec fn is_full<T>(batch: Option<Vec<T>>) -> bool {
    batch is Some ==> batch->0@.len() == WRITE_BUFFER_BATCH_SIZE
}

/// The email addresses among `threepids`, in the same order.
pub open spec fn email_threepids(threepids: Seq<MasNewThreepidView>) -> Seq<
    MasNewEmailThreepidView,
>
    decreases threepids.len(),
{
    if threepids.len() == 0 {
        Seq::empty()
    } else {
        match threepids.last() {
            MasNewThreepidView::Email(row) => email_threepids(threepids.drop_last()).push(row),
            MasNewThreepidView::Unsupported(_) => email_threepids(threepids.drop_last()),
        }
    }
}

/// The identifiers other than email addresses among `threepids`, in the
/// same order.
pub open spec fn unsupported_threepids(threepids: Seq<MasNewThreepidView>) -> Seq<
    MasNewUnsupportedThreepidView,
>
    decreases threepids.len(),
{
    if threepids.len() == 0 {
        Seq::empty()
    } else {
        match threepids.last() {
            MasNewThreepidView::Email(_) => unsupported_threepids(threepids.drop_last()),
            MasNewThreepidView::Unsupported(row) => unsupported_threepids(
                threepids.drop_last(),
            ).push(row),
        }
    }
}

/// Rows of every kind that a migration writes, each kind in the order of
/// writing.
pub struct Rows {
    pub users: Seq<MasNewUserView>,
    pub passwords: Seq<MasNewUserPasswordView>,
    pub email_threepids: Seq<MasNewEmailThreepidView>,
    pub unsupported_threepids: Seq<MasNewUnsupportedThreepidView>,
    pub upstream_oauth_links: Seq<MasNewUpstreamOauthLinkView>,
    pub access_tokens: Seq<MasNewCompatAccessTokenView>,
    pub deviceless_sessions: Seq<MasNewCompatSessionView>,
    pub pair_access_tokens: Seq<MasNewCompatAccessTokenView>,
    pub refresh_tokens: Seq<MasNewCompatRefreshTokenView>,
    pub device_sessions: Seq<MasNewCompatSessionView>,
}

impl Rows {
    /// No rows.
    pub open spec fn empty() -> Rows {
        Rows {
            users: Seq::empty(),
            passwords: Seq::empty(),
            email_threepids: Seq::empty(),
            unsupported_threepids: Seq::empty(),
            upstream_oauth_links: Seq::empty(),
            access_tokens: Seq::empty(),
            deviceless_sessions: Seq::empty(),
            pair_access_tokens: Seq::empty(),
            refresh_tokens: Seq::empty(),
            device_sessions: Seq::empty(),
        }
    }

    /// The rows that `record` says were made.
    pub open spec fn of(record: Record) -> Rows {
        Rows {
            users: record.users,
            passwords: record.passwords,
            email_threepids: email_threepids(record.threepids),
            unsupported_threepids: unsupported_threepids(record.threepids),
            upstream_oauth_links: record.upstream_oauth_links,
            access_tokens: record.access_tokens,
            deviceless_sessions: record.deviceless_sessions,
            pair_access_tokens: record.pair_access_tokens,
            refresh_tokens: record.refresh_tokens,
            device_sessions: record.device_sessions,
        }
    }

    /// These rows, followed kind by kind by the rows of `later`.
    pub open spec fn followed_by(self, later: Rows) -> Rows {
        Rows {
            users: self.users + later.users,
            passwords: self.passwords + later.passwords,
            email_threepids: self.email_threepids + later.email_threepids,
            unsupported_threepids: self.unsupported_threepids + later.unsupported_threepids,
            upstream_oauth_links: self.upstream_oauth_links + later.upstream_oauth_links,
            access_tokens: self.access_tokens + later.access_tokens,
            deviceless_sessions: self.deviceless_sessions + later.deviceless_sessions,
            pair_access_tokens: self.pair_access_tokens + later.pair_access_tokens,
            refresh_tokens: self.refresh_tokens + later.refresh_tokens,
            device_sessions: self.device_sessions + later.device_sessions,
        }
    }

    /// There are rows of no other kinds than those that `stage` writes.
    pub open spec fn belong_to(self, stage: Stage) -> bool {
        &&& stage != Stage::Users ==> self.users.len() == 0 && self.passwords.len() == 0
        &&& stage != Stage::Threepids ==> self.email_threepids.len() == 0
            && self.unsupported_threepids.len() == 0
        &&& stage != Stage::ExternalIds ==> self.upstream_oauth_links.len() == 0
        &&& stage != Stage::UnrefreshableAccessTokens ==> self.access_tokens.len() == 0
            && self.deviceless_sessions.len() == 0
        &&& stage != Stage::RefreshableTokenPairs ==> self.pair_access_tokens.len() == 0
            && self.refresh_tokens.len() == 0
        &&& stage != Stage::Devices ==> self.device_sessions.len() == 0
    }
}

/// The mathematical state of a [`Pipeline`].
pub struct PipelineView {
    /// The state of the migration.
    pub migration: MigrationView,
    /// The rows that were handed out in batches.
    pub flushed: Rows,
    /// The rows that wait in the buffers.
    pub pending: Rows,
}

impl PipelineView {
    /// What holds of the state of every pipeline: the migration is in a
    /// state that it can reach; every row that it made was handed out or
    /// waits in a buffer, in the order of making; and rows wait only in the
    /// buffers of the stage that is under way.
    pub open spec fn inv(self) -> bool {
        &&& self.migration.inv()
        &&& self.flushed.followed_by(self.pending) == Rows::of(self.migration.record)
        &&& self.pending.belong_to(self.migration.stage)
    }
}

/// The views of rows with one more row are the views of the rows with one
/// more view.
pub proof fn lemma_views_push<T: View>(rows: Seq<T>, row: T)
    ensures
        views(rows.push(row)) == views(rows).push(row@),
{
    assert(views(rows.push(row)) =~= views(rows).push(row@));
}

/// The views of rows followed by rows are the views of the ones followed by
/// the views of the others.
pub proof fn lemma_views_add<T: View>(first: Seq<T>, second: Seq<T>)
    ensures
        views(first + second) == views(first) + views(second),
        views(Seq::<T>::empty()) == Seq::<T::V>::empty(),
        views(first).len() == first.len(),
{
    assert(views(first + second) =~= views(first) + views(second));
    assert(views(Seq::<T>::empty()) =~= Seq::<T::V>::empty());
}

/// One more third-party identifier adds to the email addresses where it is
/// one, and to the other identifiers where it is not.
pub proof fn lemma_threepids_push(threepids: Seq<MasNewThreepidView>, row: MasNewThreepidView)
    ensures
        email_threepids(threepids.push(row)) == (match row {
            MasNewThreepidView::Email(email) => email_threepids(threepids).push(email),
            MasNewThreepidView::Unsupported(_) => email_threepids(threepids),
        }),
        unsupported_threepids(threepids.push(row)) == (match row {
            MasNewThreepidView::Email(_) => unsupported_threepids(threepids),
            MasNewThreepidView::Unsupported(unsupported) => unsupported_threepids(threepids).push(
                unsupported,
            ),
        }),
{
    assert(threepids.push(row).drop_last() =~= threepids);
}

/// A migration that buffers the rows it makes, one buffer for each kind of
/// row.
pub struct Pipeline {
    migration: Migration,
    users: MasWriteBuffer<MasNewUser>,
    passwords: MasWriteBuffer<MasNewUserPassword>,
    email_threepids: MasWriteBuffer<MasNewEmailThreepid>,
    unsupported_threepids: MasWriteBuffer<MasNewUnsupportedThreepid>,
    upstream_oauth_links: MasWriteBuffer<MasNewUpstreamOauthLink>,
    access_tokens: MasWriteBuffer<MasNewCompatAccessToken>,
    deviceless_sessions: MasWriteBuffer<MasNewCompatSession>,
    pair_access_tokens: MasWriteBuffer<MasNewCompatAccessToken>,
    refresh_tokens: MasWriteBuffer<MasNewCompatRefreshToken>,
    device_sessions: MasWriteBuffer<MasNewCompatSession>,
}

impl View for Pipeline {
    type V = PipelineView;

    closed spec fn view(&self) -> PipelineView {
        PipelineView {
            migration: self.migration@,
            flushed: Rows {
                users: views(self.users.flushed()),
                passwords: views(self.passwords.flushed()),
                email_threepids: views(self.email_threepids.flushed()),
                unsupported_threepids: views(self.unsupported_threepids.flushed()),
                upstream_oauth_links: views(self.upstream_oauth_links.flushed()),
                access_tokens: views(self.access_tokens.flushed()),
                deviceless_sessions: views(self.deviceless_sessions.flushed()),
                pair_access_tokens: views(self.pair_access_tokens.flushed()),
                refresh_tokens: views(self.refresh_tokens.flushed()),
                device_sessions: views(self.device_sessions.flushed()),
            },
            pending: Rows {
                users: views(self.users.pending()),
                passwords: views(self.passwords.pending()),
                email_threepids: views(self.email_threepids.pending()),
                unsupported_threepids: views(self.unsupported_threepids.pending()),
                upstream_oauth_links: views(self.upstream_oauth_links.pending()),
                access_tokens: views(self.access_tokens.pending()),
                deviceless_sessions: views(self.deviceless_sessions.pending()),
                pair_access_tokens: views(self.pair_access_tokens.pending()),
                refresh_tokens: views(self.refresh_tokens.pending()),
                device_sessions: views(self.device_sessions.pending()),
            },
        }
    }
}

/// Writes `row` to `buffer` and says, in views, what that does to the
/// buffer.
fn buffer_write<T: View>(buffer: &mut MasWriteBuffer<T>, row: T) -> (batch: Option<Vec<T>>)
    ensures
        is_full(batch),
        views(final(buffer).flushed()) == views(old(buffer).flushed()) + batch_views(batch),
        views(final(buffer).flushed()) + views(final(buffer).pending()) == (views(
            old(buffer).flushed(),
        ) + views(old(buffer).pending())).push(row@),
{
    let batch = buffer.write(row);
    proof {
        lemma_views_add(old(buffer).flushed(), old(buffer).pending());
        lemma_views_add(buffer.flushed(), buffer.pending());
        lemma_views_push(old(buffer).written(), row);
        if batch is Some {
            lemma_views_add(old(buffer).flushed(), batch->0@);
        } else {
            assert(views(old(buffer).flushed()) + Seq::<T::V>::empty() =~= views(
                old(buffer).flushed(),
            ));
        }
    }
    batch
}

/// Empties `buffer` and says, in views, what that does to the buffer.
fn buffer_flush<T: View>(buffer: &mut MasWriteBuffer<T>) -> (batch: Option<Vec<T>>)
    ensures
        views(final(buffer).flushed()) == views(old(buffer).flushed()) + batch_views(batch),
        views(final(buffer).flushed()) == views(old(buffer).flushed()) + views(
            old(buffer).pending(),
        ),
        views(final(buffer).pending()) == Seq::<T::V>::empty(),
        batch is None <==> views(old(buffer).pending()).len() == 0,
{
    let batch = buffer.flush();
    proof {
        lemma_views_add(old(buffer).flushed(), old(buffer).pending());
        lemma_views_add(buffer.flushed(), buffer.pending());
        if batch is None {
            assert(views(old(buffer).flushed()) + Seq::<T::V>::empty() =~= views(
                old(buffer).flushed(),
            ));
        }
    }
    batch
}

impl Pipeline {
    /// The state is one that a pipeline can reach.
    pub open spec fn wf(&self) -> bool {
        self@.inv()
    }

    /// A pipeline for the migration of the homeserver `server_name` that has
    /// not read anything yet. The two counts are estimates of the number of
    /// users and devices to come.
    pub fn new(
        server_name: String,
        provider_id_mapping: ProviderMapping,
        user_count_hint: usize,
        device_count_hint: usize,
    ) -> (pipeline: Self)
        ensures
            pipeline.wf(),
            pipeline@.flushed == Rows::empty(),
            pipeline@.pending == Rows::empty(),
            pipeline@.migration == (MigrationView {
                server_name: server_name@,
                stage: Stage::Users,
                providers: provider_id_mapping@,
                localparts: Map::empty(),
                admins: Set::empty(),
                sessions: Map::empty(),
                record: Record::empty(),
            }),
    {
        let pipeline = Pipeline {
            migration: Migration::new(
                server_name,
                provider_id_mapping,
                user_count_hint,
                device_count_hint,
            ),
            users: MasWriteBuffer::new(),
            passwords: MasWriteBuffer::new(),
            email_threepids: MasWriteBuffer::new(),
            unsupported_threepids: MasWriteBuffer::new(),
            upstream_oauth_links: MasWriteBuffer::new(),
            access_tokens: MasWriteBuffer::new(),
            deviceless_sessions: MasWriteBuffer::new(),
            pair_access_tokens: MasWriteBuffer::new(),
            refresh_tokens: MasWriteBuffer::new(),
            device_sessions: MasWriteBuffer::new(),
        };
        proof {
            lemma_views_add(Seq::<MasNewUser>::empty(), Seq::empty());
            lemma_views_add(Seq::<MasNewUserPassword>::empty(), Seq::empty());
            lemma_views_add(Seq::<MasNewEmailThreepid>::empty(), Seq::empty());
            lemma_views_add(Seq::<MasNewUnsupportedThreepid>::empty(), Seq::empty());
            lemma_views_add(Seq::<MasNewUpstreamOauthLink>::empty(), Seq::empty());
            lemma_views_add(Seq::<MasNewCompatAccessToken>::empty(), Seq::empty());
            lemma_views_add(Seq::<MasNewCompatSession>::empty(), Seq::empty());
            lemma_views_add(Seq::<MasNewCompatRefreshToken>::empty(), Seq::empty());
            assert(pipeline@.flushed == Rows::empty());
            assert(pipeline@.pending == Rows::empty());
            assert(Rows::empty().followed_by(Rows::empty()).users =~= Seq::empty());
            assert(Rows::empty().followed_by(Rows::empty()) =~= Rows::of(Record::empty()));
        }
        pipeline
    }

    /// The migration that the pipeline runs, to look users and sessions up
    /// in.
    pub fn migration(&self) -> (migration: &Migration)
        ensures
            migration@ == self@.migration,
    {
        &self.migration
    }

    /// Migrates one user and returns the batches of users and of passwords
    /// that this completes.
    ///
    /// Fails, and leaves everything as it was, where the user's name is not
    /// a user ID of the homeserver.
    pub fn migrate_user(&mut self, user: &SynapseUser, rng: &mut StdRng) -> (batches:
        Result<(Option<Vec<MasNewUser>>, Option<Vec<MasNewUserPassword>>), Error>)
        requires
            old(self).wf(),
            old(self)@.migration.stage == Stage::Users,
        ensures
            final(self).wf(),
            match batches {
                Ok((users, passwords)) => {
                    &&& old(self)@.migration.migrates_user(
                        user@,
                        final(self)@.migration.record.users.last(),
                        if user@.password_hash is Some {
                            Some(final(self)@.migration.record.passwords.last())
                        } else {
                            None
                        },
                        final(self)@.migration,
                    )
                    &&& is_full(users)
                    &&& is_full(passwords)
                    &&& final(self)@.flushed == old(self)@.flushed.followed_by(
                        Rows {
                            users: batch_views(users),
                            passwords: batch_views(passwords),
                            ..Rows::empty()
                        },
                    )
                },
                Err(error) => {
                    &&& !is_user_of(user.name@, old(self)@.migration.server_name)
                    &&& error@ == (ErrorView::InvalidUserId { user: user.name@ })
                    &&& final(self)@ == old(self)@
                },
            },
    {
        let (new_user, password) = self.migration.migrate_user(user, rng)?;
        let users = buffer_write(&mut self.users, new_user);
        let passwords = match password {
            Some(password) => buffer_write(&mut self.passwords, password),
            None => None,
        };
        proof {
            lemma_rest_is_kept(old(self)@.flushed);
            assert(self@.flushed.users =~= old(self)@.flushed.users + batch_views(users));
            assert(self@.flushed.passwords =~= old(self)@.flushed.passwords + batch_views(
                passwords,
            ));
        }
        Ok((users, passwords))
    }

    /// Ends the reading of the users: returns the users and the passwords
    /// that still wait, and turns to the third-party identifiers.
    pub fn finish_users(&mut self) -> (batches: (
        Option<Vec<MasNewUser>>,
        Option<Vec<MasNewUserPassword>>,
    ))
        requires
            old(self).wf(),
            old(self)@.migration.stage == Stage::Users,
        ensures
            final(self).wf(),
            final(self)@.migration == (MigrationView {
                stage: Stage::Threepids,
                ..old(self)@.migration
            }),
            final(self)@.pending == Rows::empty(),
            final(self)@.flushed == old(self)@.flushed.followed_by(
                Rows {
                    users: batch_views(batches.0),
                    passwords: batch_views(batches.1),
                    ..Rows::empty()
                },
            ),
    {
        let users = buffer_flush(&mut self.users);
        let passwords = buffer_flush(&mut self.passwords);
        self.migration.advance();
        proof {
            lemma_rest_is_kept(old(self)@.flushed);
            lemma_nothing_waits(self@.pending);
        }
        (users, passwords)
    }

    /// Migrates one third-party identifier and returns the batch of email
    /// addresses or of other identifiers that this completes.
    ///
    /// Fails, and leaves everything as it was, where the row's user ID is
    /// not one of the homeserver, or names a user that was not migrated.
    pub fn migrate_threepid(&mut self, threepid: SynapseThreepid, rng: &mut StdRng) -> (batches:
        Result<(Option<Vec<MasNewEmailThreepid>>, Option<Vec<MasNewUnsupportedThreepid>>), Error>)
        requires
            old(self).wf(),
            old(self)@.migration.stage == Stage::Threepids,
        ensures
            final(self).wf(),
            match resolve_user(
                threepid.user_id@,
                old(self)@.migration.server_name,
                old(self)@.migration.localparts,
                "user_threepids"@,
            ) {
                Ok(user_id) => {
                    &&& batches is Ok
                    &&& old(self)@.migration.migrates_threepid(
                        threepid@,
                        user_id,
                        final(self)@.migration.record.threepids.last(),
                        final(self)@.migration,
                    )
                    &&& is_full(batches->Ok_0.0)
                    &&& is_full(batches->Ok_0.1)
                    &&& final(self)@.flushed == old(self)@.flushed.followed_by(
                        Rows {
                            email_threepids: batch_views(batches->Ok_0.0),
                            unsupported_threepids: batch_views(batches->Ok_0.1),
                            ..Rows::empty()
                        },
                    )
                },
                Err(error) => {
                    &&& batches is Err
                    &&& batches->Err_0@ == error
                    &&& final(self)@ == old(self)@
                },
            },
    {
        let row = self.migration.migrate_threepid(threepid, rng)?;
        let ghost made = row@;
        let batches = match row {
            MasNewThreepid::Email(email) => (
                buffer_write(&mut self.email_threepids, email),
                None,
            ),
            MasNewThreepid::Unsupported(unsupported) => (
                None,
                buffer_write(&mut self.unsupported_threepids, unsupported),
            ),
        };
        proof {
            lemma_rest_is_kept(old(self)@.flushed);
            lemma_threepids_push(old(self)@.migration.record.threepids, made);
            assert(self@.flushed.email_threepids =~= old(self)@.flushed.email_threepids
                + batch_views(batches.0));
            assert(self@.flushed.unsupported_threepids
                =~= old(self)@.flushed.unsupported_threepids + batch_views(batches.1));
        }
        Ok(batches)
    }

    /// Ends the reading of the third-party identifiers: returns the email
    /// addresses and the other identifiers that still wait, and turns to the
    /// external IDs.
    pub fn finish_threepids(&mut self) -> (batches: (
        Option<Vec<MasNewEmailThreepid>>,
        Option<Vec<MasNewUnsupportedThreepid>>,
    ))
        requires
            old(self).wf(),
            old(self)@.migration.stage == Stage::Threepids,
        ensures
            final(self).wf(),
            final(self)@.migration == (MigrationView {
                stage: Stage::ExternalIds,
                ..old(self)@.migration
            }),
            final(self)@.pending == Rows::empty(),
            final(self)@.flushed == old(self)@.flushed.followed_by(
                Rows {
                    email_threepids: batch_views(batches.0),
                    unsupported_threepids: batch_views(batches.1),
                    ..Rows::empty()
                },
            ),
    {
        let emails = buffer_flush(&mut self.email_threepids);
        let unsupported = buffer_flush(&mut self.unsupported_threepids);
        self.migration.advance();
        proof {
            lemma_rest_is_kept(old(self)@.flushed);
            lemma_nothing_waits(self@.pending);
        }
        (emails, unsupported)
    }

    /// Migrates one link to an upstream provider and returns the batch of
    /// links that this completes.
    ///
    /// Fails, and leaves everything as it was, where the row's user ID is
    /// not one of the homeserver, names a user that was not migrated, or
    /// where no upstream provider was given for the row's auth provider.
    pub fn migrate_external_id(
        &mut self,
        external_id: SynapseExternalId,
        rng: &mut StdRng,
    ) -> (batch: Result<Option<Vec<MasNewUpstreamOauthLink>>, Error>)
        requires
            old(self).wf(),
            old(self)@.migration.stage == Stage::ExternalIds,
        ensures
            final(self).wf(),
            match resolve_link(
                external_id@,
                old(self)@.migration.server_name,
                old(self)@.migration.localparts,
                old(self)@.migration.providers,
            ) {
                Ok((user_id, provider_id)) => {
                    &&& batch is Ok
                    &&& old(self)@.migration.migrates_external_id(
                        external_id@,
                        user_id,
                        provider_id,
                        final(self)@.migration.record.upstream_oauth_links.last(),
                        final(self)@.migration,
                    )
                    &&& is_full(batch->Ok_0)
                    &&& final(self)@.flushed == old(self)@.flushed.followed_by(
                        Rows { upstream_oauth_links: batch_views(batch->Ok_0), ..Rows::empty() },
                    )
                },
                Err(error) => {
                    &&& batch is Err
                    &&& batch->Err_0@ == error
                    &&& final(self)@ == old(self)@
                },
            },
    {
        let link = self.migration.migrate_external_id(external_id, rng)?;
        let batch = buffer_write(&mut self.upstream_oauth_links, link);
        proof {
            lemma_rest_is_kept(old(self)@.flushed);
            assert(self@.flushed.upstream_oauth_links
                =~= old(self)@.flushed.upstream_oauth_links + batch_views(batch));
        }
        Ok(batch)
    }

    /// Ends the reading of the external IDs: returns the links that still
    /// wait, and turns to the access tokens without a refresh token.
    pub fn finish_external_ids(&mut self) -> (batch: Option<Vec<MasNewUpstreamOauthLink>>)
        requires
            old(self).wf(),
            old(self)@.migration.stage == Stage::ExternalIds,
        ensures
            final(self).wf(),
            final(self)@.migration == (MigrationView {
                stage: Stage::UnrefreshableAccessTokens,
                ..old(self)@.migration
            }),
            final(self)@.pending == Rows::empty(),
            final(self)@.flushed == old(self)@.flushed.followed_by(
                Rows { upstream_oauth_links: batch_views(batch), ..Rows::empty() },
            ),
    {
        let links = buffer_flush(&mut self.upstream_oauth_links);
        self.migration.advance();
        proof {
            lemma_rest_is_kept(old(self)@.flushed);
            lemma_nothing_waits(self@.pending);
        }
        links
    }

    /// Migrates one access token that has no refresh token, at the time
    /// `now`, and returns the batch of sessions without a device and the
    /// batch of access tokens that this completes. The sessions are to be
    /// inserted first.
    ///
    /// Fails, and leaves everything as it was, where the row's user ID is
    /// not one of the homeserver, or names a user that was not migrated.
    pub fn migrate_unrefreshable_access_token(
        &mut self,
        token: SynapseAccessToken,
        now: Timestamp,
        rng: &mut StdRng,
    ) -> (batches: Result<
        (Option<Vec<MasNewCompatSession>>, Option<Vec<MasNewCompatAccessToken>>),
        Error,
    >)
        requires
            old(self).wf(),
            old(self)@.migration.stage == Stage::UnrefreshableAccessTokens,
        ensures
            final(self).wf(),
            match resolve_user(
                token.user_id@,
                old(self)@.migration.server_name,
                old(self)@.migration.localparts,
                "access_tokens"@,
            ) {
                Ok(user_id) => {
                    &&& batches is Ok
                    &&& old(self)@.migration.migrates_access_token(
                        token@,
                        now,
                        user_id,
                        final(self)@.migration.record.access_tokens.last(),
                        if token@.device_id is None {
                            Some(final(self)@.migration.record.deviceless_sessions.last())
                        } else {
                            None
                        },
                        final(self)@.migration,
                    )
                    &&& is_full(batches->Ok_0.0)
                    &&& is_full(batches->Ok_0.1)
                    &&& final(self)@.flushed == old(self)@.flushed.followed_by(
                        Rows {
                            deviceless_sessions: batch_views(batches->Ok_0.0),
                            access_tokens: batch_views(batches->Ok_0.1),
                            ..Rows::empty()
                        },
                    )
                },
                Err(error) => {
                    &&& batches is Err
                    &&& batches->Err_0@ == error
                    &&& final(self)@ == old(self)@
                },
            },
    {
        let (access_token, session) = self.migration.migrate_unrefreshable_access_token(
            token,
            now,
            rng,
        )?;
        let sessions = match session {
            Some(session) => buffer_write(&mut self.deviceless_sessions, session),
            None => None,
        };
        let access_tokens = buffer_write(&mut self.access_tokens, access_token);
        proof {
            lemma_rest_is_kept(old(self)@.flushed);
            assert(self@.flushed.deviceless_sessions =~= old(self)@.flushed.deviceless_sessions
                + batch_views(sessions));
            assert(self@.flushed.access_tokens =~= old(self)@.flushed.access_tokens
                + batch_views(access_tokens));
        }
        Ok((sessions, access_tokens))
    }

    /// Ends the reading of the access tokens without a refresh token:
    /// returns the access tokens and the sessions without a device that
    /// still wait, and turns to the token pairs.
    pub fn finish_unrefreshable_access_tokens(&mut self) -> (batches: (
        Option<Vec<MasNewCompatAccessToken>>,
        Option<Vec<MasNewCompatSession>>,
    ))
        requires
            old(self).wf(),
            old(self)@.migration.stage == Stage::UnrefreshableAccessTokens,
        ensures
            final(self).wf(),
            final(self)@.migration == (MigrationView {
                stage: Stage::RefreshableTokenPairs,
                ..old(self)@.migration
            }),
            final(self)@.pending == Rows::empty(),
            final(self)@.flushed == old(self)@.flushed.followed_by(
                Rows {
                    access_tokens: batch_views(batches.0),
                    deviceless_sessions: batch_views(batches.1),
                    ..Rows::empty()
                },
            ),
    {
        let access_tokens = buffer_flush(&mut self.access_tokens);
        let sessions = buffer_flush(&mut self.deviceless_sessions);
        self.migration.advance();
        proof {
            lemma_rest_is_kept(old(self)@.flushed);
            lemma_nothing_waits(self@.pending);
        }
        (access_tokens, sessions)
    }

    /// Migrates one access token together with its refresh token, at the
    /// time `now`, and returns the batch of access tokens and the batch of
    /// refresh tokens that this completes.
    ///
    /// Fails, and leaves everything as it was, where the row's user ID is
    /// not one of the homeserver, or names a user that was not migrated.
    pub fn migrate_refreshable_token_pair(
        &mut self,
        pair: SynapseRefreshableTokenPair,
        now: Timestamp,
        rng: &mut StdRng,
    ) -> (batches: Result<
        (Option<Vec<MasNewCompatAccessToken>>, Option<Vec<MasNewCompatRefreshToken>>),
        Error,
    >)
        requires
            old(self).wf(),
            old(self)@.migration.stage == Stage::RefreshableTokenPairs,
        ensures
            final(self).wf(),
            match resolve_user(
                pair.user_id@,
                old(self)@.migration.server_name,
                old(self)@.migration.localparts,
                "refresh_tokens"@,
            ) {
                Ok(user_id) => {
                    &&& batches is Ok
                    &&& old(self)@.migration.migrates_token_pair(
                        pair@,
                        now,
                        user_id,
                        final(self)@.migration.record.pair_access_tokens.last(),
                        final(self)@.migration.record.refresh_tokens.last(),
                        final(self)@.migration,
                    )
                    &&& is_full(batches->Ok_0.0)
                    &&& is_full(batches->Ok_0.1)
                    &&& final(self)@.flushed == old(self)@.flushed.followed_by(
                        Rows {
                            pair_access_tokens: batch_views(batches->Ok_0.0),
                            refresh_tokens: batch_views(batches->Ok_0.1),
                            ..Rows::empty()
                        },
                    )
                },
                Err(error) => {
                    &&& batches is Err
                    &&& batches->Err_0@ == error
                    &&& final(self)@ == old(self)@
                },
            },
    {
        let (access_token, refresh_token) = self.migration.migrate_refreshable_token_pair(
            pair,
            now,
            rng,
        )?;
        let access_tokens = buffer_write(&mut self.pair_access_tokens, access_token);
        let refresh_tokens = buffer_write(&mut self.refresh_tokens, refresh_token);
        proof {
            lemma_rest_is_kept(old(self)@.flushed);
            assert(self@.flushed.pair_access_tokens =~= old(self)@.flushed.pair_access_tokens
                + batch_views(access_tokens));
            assert(self@.flushed.refresh_tokens =~= old(self)@.flushed.refresh_tokens
                + batch_views(refresh_tokens));
        }
        Ok((access_tokens, refresh_tokens))
    }

    /// Ends the reading of the token pairs: returns the access tokens and
    /// the refresh tokens that still wait, and turns to the devices.
    pub fn finish_refreshable_token_pairs(&mut self) -> (batches: (
        Option<Vec<MasNewCompatAccessToken>>,
        Option<Vec<MasNewCompatRefreshToken>>,
    ))
        requires
            old(self).wf(),
            old(self)@.migration.stage == Stage::RefreshableTokenPairs,
        ensures
            final(self).wf(),
            final(self)@.migration == (MigrationView {
                stage: Stage::Devices,
                ..old(self)@.migration
            }),
            final(self)@.pending == Rows::empty(),
            final(self)@.flushed == old(self)@.flushed.followed_by(
                Rows {
                    pair_access_tokens: batch_views(batches.0),
                    refresh_tokens: batch_views(batches.1),
                    ..Rows::empty()
                },
            ),
    {
        let access_tokens = buffer_flush(&mut self.pair_access_tokens);
        let refresh_tokens = buffer_flush(&mut self.refresh_tokens);
        self.migration.advance();
        proof {
            lemma_rest_is_kept(old(self)@.flushed);
            lemma_nothing_waits(self@.pending);
        }
        (access_tokens, refresh_tokens)
    }

    /// Migrates one device, at the time `now`, and returns the batch of
    /// sessions that this completes and, where nothing was read in the
    /// device's last address, the text of that address, to be reported.
    ///
    /// `parsed_ip` is what the destination's address type reads in the
    /// device's last address, if it reads one.
    ///
    /// Fails, and leaves everything as it was, where the row's user ID is
    /// not one of the homeserver, or names a user that was not migrated.
    pub fn migrate_device(
        &mut self,
        device: SynapseDevice,
        parsed_ip: Option<IpAddress>,
        now: Timestamp,
        rng: &mut StdRng,
    ) -> (batch: Result<(Option<Vec<MasNewCompatSession>>, Option<String>), Error>)
        requires
            old(self).wf(),
            old(self)@.migration.stage == Stage::Devices,
        ensures
            final(self).wf(),
            match resolve_user(
                device.user_id@,
                old(self)@.migration.server_name,
                old(self)@.migration.localparts,
                "devices"@,
            ) {
                Ok(user_id) => {
                    &&& batch is Ok
                    &&& old(self)@.migration.migrates_device(
                        device@,
                        parsed_ip,
                        now,
                        user_id,
                        final(self)@.migration.record.device_sessions.last(),
                        opt_text(batch->Ok_0.1),
                        final(self)@.migration,
                    )
                    &&& is_full(batch->Ok_0.0)
                    &&& final(self)@.flushed == old(self)@.flushed.followed_by(
                        Rows { device_sessions: batch_views(batch->Ok_0.0), ..Rows::empty() },
                    )
                },
                Err(error) => {
                    &&& batch is Err
                    &&& batch->Err_0@ == error
                    &&& final(self)@ == old(self)@
                },
            },
    {
        let (session, ignored_ip) = self.migration.migrate_device(device, parsed_ip, now, rng)?;
        let sessions = buffer_write(&mut self.device_sessions, session);
        proof {
            lemma_rest_is_kept(old(self)@.flushed);
            assert(self@.flushed.device_sessions =~= old(self)@.flushed.device_sessions
                + batch_views(sessions));
        }
        Ok((sessions, ignored_ip))
    }

    /// Ends the reading of the devices, and with it the migration: returns
    /// the sessions that still wait. Every row that the migration made has
    /// been handed out by now.
    pub fn finish_devices(&mut self) -> (batch: Option<Vec<MasNewCompatSession>>)
        requires
            old(self).wf(),
            old(self)@.migration.stage == Stage::Devices,
        ensures
            final(self).wf(),
            final(self)@.migration == (MigrationView {
                stage: Stage::Done,
                ..old(self)@.migration
            }),
            final(self)@.pending == Rows::empty(),
            final(self)@.flushed == old(self)@.flushed.followed_by(
                Rows { device_sessions: batch_views(batch), ..Rows::empty() },
            ),
            final(self)@.flushed == Rows::of(final(self)@.migration.record),
    {
        let sessions = buffer_flush(&mut self.device_sessions);
        self.migration.advance();
        proof {
            lemma_rest_is_kept(old(self)@.flushed);
            lemma_nothing_waits(self@.pending);
            lemma_rest_is_kept(self@.flushed);
        }
        sessions
    }
}

/// Once a stage is over, every row that it made has been handed out: what
/// was made of a kind that the stage under way does not write is what was
/// handed out of that kind.
pub proof fn law_finished_stages_are_handed_out(state: PipelineView)
    requires
        state.inv(),
    ensures
        state.migration.stage != Stage::Users ==> state.flushed.users
            == state.migration.record.users && state.flushed.passwords
            == state.migration.record.passwords,
        state.migration.stage != Stage::Threepids ==> state.flushed.email_threepids
            == email_threepids(state.migration.record.threepids)
            && state.flushed.unsupported_threepids == unsupported_threepids(
            state.migration.record.threepids,
        ),
        state.migration.stage != Stage::ExternalIds ==> state.flushed.upstream_oauth_links
            == state.migration.record.upstream_oauth_links,
        state.migration.stage != Stage::UnrefreshableAccessTokens ==> state.flushed.access_tokens
            == state.migration.record.access_tokens && state.flushed.deviceless_sessions
            == state.migration.record.deviceless_sessions,
        state.migration.stage != Stage::RefreshableTokenPairs ==> state.flushed.pair_access_tokens
            == state.migration.record.pair_access_tokens && state.flushed.refresh_tokens
            == state.migration.record.refresh_tokens,
        state.migration.stage != Stage::Devices ==> state.flushed.device_sessions
            == state.migration.record.device_sessions,
        state.migration.stage == Stage::Done ==> state.flushed == Rows::of(state.migration.record),
{
    let all = state.flushed.followed_by(state.pending);
    assert(state.pending.users.len() == 0 ==> all.users =~= state.flushed.users);
    assert(state.pending.passwords.len() == 0 ==> all.passwords =~= state.flushed.passwords);
    assert(state.pending.email_threepids.len() == 0 ==> all.email_threepids
        =~= state.flushed.email_threepids);
    assert(state.pending.unsupported_threepids.len() == 0 ==> all.unsupported_threepids
        =~= state.flushed.unsupported_threepids);
    assert(state.pending.upstream_oauth_links.len() == 0 ==> all.upstream_oauth_links
        =~= state.flushed.upstream_oauth_links);
    assert(state.pending.access_tokens.len() == 0 ==> all.access_tokens
        =~= state.flushed.access_tokens);
    assert(state.pending.deviceless_sessions.len() == 0 ==> all.deviceless_sessions
        =~= state.flushed.deviceless_sessions);
    assert(state.pending.pair_access_tokens.len() == 0 ==> all.pair_access_tokens
        =~= state.flushed.pair_access_tokens);
    assert(state.pending.refresh_tokens.len() == 0 ==> all.refresh_tokens
        =~= state.flushed.refresh_tokens);
    assert(state.pending.device_sessions.len() == 0 ==> all.device_sessions
        =~= state.flushed.device_sessions);
}

/// Rows followed by no rows are the rows themselves.
pub proof fn lemma_rest_is_kept(rows: Rows)
    ensures
        rows.followed_by(Rows::empty()) == rows,
        rows.users + Seq::empty() == rows.users,
        rows.passwords + Seq::empty() == rows.passwords,
        rows.email_threepids + Seq::empty() == rows.email_threepids,
        rows.unsupported_threepids + Seq::empty() == rows.unsupported_threepids,
        rows.upstream_oauth_links + Seq::empty() == rows.upstream_oauth_links,
        rows.access_tokens + Seq::empty() == rows.access_tokens,
        rows.deviceless_sessions + Seq::empty() == rows.deviceless_sessions,
        rows.pair_access_tokens + Seq::empty() == rows.pair_access_tokens,
        rows.refresh_tokens + Seq::empty() == rows.refresh_tokens,
        rows.device_sessions + Seq::empty() == rows.device_sessions,
{
    assert(rows.users + Seq::empty() =~= rows.users);
    assert(rows.passwords + Seq::empty() =~= rows.passwords);
    assert(rows.email_threepids + Seq::empty() =~= rows.email_threepids);
    assert(rows.unsupported_threepids + Seq::empty() =~= rows.unsupported_threepids);
    assert(rows.upstream_oauth_links + Seq::empty() =~= rows.upstream_oauth_links);
    assert(rows.access_tokens + Seq::empty() =~= rows.access_tokens);
    assert(rows.deviceless_sessions + Seq::empty() =~= rows.deviceless_sessions);
    assert(rows.pair_access_tokens + Seq::empty() =~= rows.pair_access_tokens);
    assert(rows.refresh_tokens + Seq::empty() =~= rows.refresh_tokens);
    assert(rows.device_sessions + Seq::empty() =~= rows.device_sessions);
}

/// Rows of which there are none of any kind are no rows.
pub proof fn lemma_nothing_waits(rows: Rows)
    requires
        rows.users.len() == 0,
        rows.passwords.len() == 0,
        rows.email_threepids.len() == 0,
        rows.unsupported_threepids.len() == 0,
        rows.upstream_oauth_links.len() == 0,
        rows.access_tokens.len() == 0,
        rows.deviceless_sessions.len() == 0,
        rows.pair_access_tokens.len() == 0,
        rows.refresh_tokens.len() == 0,
        rows.device_sessions.len() == 0,
    ensures
        rows == Rows::empty(),
{
    assert(rows.users =~= Seq::empty());
    assert(rows.passwords =~= Seq::empty());
    assert(rows.email_threepids =~= Seq::empty());
    assert(rows.unsupported_threepids =~= Seq::empty());
    assert(rows.upstream_oauth_links =~= Seq::empty());
    assert(rows.access_tokens =~= Seq::empty());
    assert(rows.deviceless_sessions =~= Seq::empty());
    assert(rows.pair_access_tokens =~= Seq::empty());
    assert(rows.refresh_tokens =~= Seq::empty());
    assert(rows.device_sessions =~= Seq::empty());
}

} // verus!
