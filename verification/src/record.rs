//! The mathematical account of a migration: what was read, what was written,
//! and how each written row follows from the row it was made for.

use crate::error::ErrorView;
use crate::ident::{id_timestamp, Timestamp};
use crate::localpart::{is_localpart_of, is_user_of, localpart_of};
use crate::mas::{
    IpAddress, MasNewCompatAccessTokenView, MasNewCompatRefreshTokenView,
    MasNewCompatSessionView, MasNewThreepidView, MasNewUnsupportedThreepidView,
    MasNewUpstreamOauthLinkView, MasNewUserPasswordView, MasNewUserView,
};
use crate::synapse::{
    SynapseAccessTokenView, SynapseDeviceView, SynapseExternalIdView,
    SynapseRefreshableTokenPairView, SynapseThreepidView, SynapseUserView,
};
use vstd::prelude::*;

verus! {

/// The view of an optional value.
pub open spec fn opt_view<T: View>(value: Option<T>) -> Option<T::V> {
    match value {
        Some(value) => Some(value@),
        None => None,
    }
}

/// The destination user that the source row `user_id` of `table` belongs to,
/// or the error that the row is refused with: the ID has to name a user of
/// `server_name`, and that user has to be in `index`.
pub open spec fn resolve_user(
    user_id: Seq<char>,
    server_name: Seq<char>,
    index: Map<Seq<char>, u128>,
    table: Seq<char>,
) -> Result<u128, ErrorView> {
    if !is_user_of(user_id, server_name) {
        Err(ErrorView::InvalidUserId { user: user_id })
    } else if !index.contains_key(localpart_of(user_id, server_name)) {
        Err(ErrorView::MissingUserFromDependentTable { table, user: user_id })
    } else {
        Ok(index[localpart_of(user_id, server_name)])
    }
}

/// `row` is the destination user made for the source user `user`.
pub open spec fn user_from(
    user: SynapseUserView,
    server_name: Seq<char>,
    row: MasNewUserView,
) -> bool {
    &&& is_localpart_of(row.username, user.name, server_name)
    &&& id_timestamp(row.user_id) == user.creation_ts@
    &&& row.created_at == user.creation_ts
    &&& row.locked_at == (if user.deactivated {
        Some(user.creation_ts)
    } else {
        None
    })
    &&& row.can_request_admin == user.admin
}

/// `password` is what the password hash of `user` becomes beside the
/// destination user `row`: a password row where there is a hash, nothing
/// where there is none.
pub open spec fn password_from(
    user: SynapseUserView,
    row: MasNewUserView,
    password: Option<MasNewUserPasswordView>,
) -> bool {
    match user.password_hash {
        Some(hash) => {
            &&& password is Some
            &&& password->0.user_id == row.user_id
            &&& password->0.hashed_password == hash
            &&& password->0.created_at == user.creation_ts
            &&& id_timestamp(password->0.user_password_id) == user.creation_ts@
        },
        None => password is None,
    }
}

/// `row` is what the third-party identifier `threepid` of the user
/// `user_id` becomes: an email row for the medium `email`, and a row that
/// keeps the medium as it is for any other.
pub open spec fn threepid_from(
    threepid: SynapseThreepidView,
    user_id: u128,
    row: MasNewThreepidView,
) -> bool {
    if threepid.medium == "email"@ {
        &&& row is Email
        &&& row->Email_0.user_id == user_id
        &&& row->Email_0.email == threepid.address
        &&& row->Email_0.created_at == threepid.added_at
        &&& id_timestamp(row->Email_0.user_email_id) == threepid.added_at@
    } else {
        row == MasNewThreepidView::Unsupported(
            MasNewUnsupportedThreepidView {
                user_id,
                medium: threepid.medium,
                address: threepid.address,
                created_at: threepid.added_at,
            },
        )
    }
}

/// `row` is the link made for the external ID `external_id` of the user
/// `user_id` at the upstream provider `provider_id`. The link is as old as
/// the user: its creation time is the one that the user's ID carries.
pub open spec fn link_from(
    external_id: SynapseExternalIdView,
    user_id: u128,
    provider_id: u128,
    row: MasNewUpstreamOauthLinkView,
) -> bool {
    &&& row.user_id == user_id
    &&& row.upstream_provider_id == provider_id
    &&& row.subject == external_id.external_id
    &&& row.created_at@ == id_timestamp(user_id)
    &&& id_timestamp(row.link_id) == id_timestamp(user_id)
}

/// `row` is the session made for a token of the user `user_id` that belongs
/// to no device.
pub open spec fn deviceless_session_from(user_id: u128, row: MasNewCompatSessionView) -> bool {
    &&& row.user_id == user_id
    &&& row.device_id is None
    &&& row.human_name is None
    &&& !row.is_synapse_admin
    &&& row.last_active_at is None
    &&& row.last_active_ip is None
    &&& row.user_agent is None
    &&& row.dated()
}

/// `row` is the access token made for the source token `token` of the user
/// `user_id`, in the session `session_id`.
pub open spec fn access_token_from(
    token: SynapseAccessTokenView,
    session_id: u128,
    row: MasNewCompatAccessTokenView,
) -> bool {
    &&& row.session_id == session_id
    &&& row.access_token == token.token
    &&& row.expires_at == token.valid_until_ms
    &&& row.dated()
    &&& token.last_validated is Some ==> row.created_at == token.last_validated->0
}

/// `access` and `refresh` are the two tokens made for the source pair
/// `pair`, in the session `session_id`.
pub open spec fn token_pair_from(
    pair: SynapseRefreshableTokenPairView,
    session_id: u128,
    access: MasNewCompatAccessTokenView,
    refresh: MasNewCompatRefreshTokenView,
) -> bool {
    &&& access.session_id == session_id
    &&& access.access_token == pair.access_token
    &&& access.expires_at == pair.valid_until_ms
    &&& access.dated()
    &&& refresh.session_id == session_id
    &&& refresh.access_token_id == access.token_id
    &&& refresh.refresh_token == pair.refresh_token
    &&& refresh.created_at == access.created_at
    &&& refresh.dated()
    &&& pair.last_validated is Some ==> access.created_at == pair.last_validated->0
}

/// The address that a session keeps of a device whose last address reads
/// `ip`, where the destination's address type makes `parsed` of that text:
/// the parsed address, or nothing where the text is absent or not an
/// address.
pub open spec fn session_ip(ip: Option<Seq<char>>, parsed: Option<IpAddress>) -> Option<
    IpAddress,
> {
    if ip is Some {
        parsed
    } else {
        None
    }
}

/// `row` is the session made for the device `device` of the user `user_id`,
/// under the name `session_id`.
pub open spec fn device_session_from(
    device: SynapseDeviceView,
    user_id: u128,
    session_id: u128,
    is_admin: bool,
    row: MasNewCompatSessionView,
) -> bool {
    &&& row.session_id == session_id
    &&& row.user_id == user_id
    &&& row.device_id == Some(device.device_id)
    &&& row.human_name == device.display_name
    &&& row.dated()
    &&& row.is_synapse_admin == is_admin
    &&& row.last_active_at == device.last_seen
    &&& row.user_agent == device.user_agent
    &&& device.ip is None ==> row.last_active_ip is None
}

/// The number of users in `users` that have a password.
pub open spec fn count_with_password(users: Seq<SynapseUserView>) -> nat
    decreases users.len(),
{
    if users.len() == 0 {
        0
    } else {
        count_with_password(users.drop_last()) + if users.last().password_hash is Some {
            1nat
        } else {
            0nat
        }
    }
}

/// The number of tokens in `tokens` that belong to no device.
pub open spec fn count_deviceless_tokens(tokens: Seq<SynapseAccessTokenView>) -> nat
    decreases tokens.len(),
{
    if tokens.len() == 0 {
        0
    } else {
        count_deviceless_tokens(tokens.drop_last()) + if tokens.last().device_id is None {
            1nat
        } else {
            0nat
        }
    }
}

/// The number of sessions in `sessions` that belong to no device.
pub open spec fn count_deviceless_sessions(sessions: Seq<MasNewCompatSessionView>) -> nat
    decreases sessions.len(),
{
    if sessions.len() == 0 {
        0
    } else {
        count_deviceless_sessions(sessions.drop_last()) + if sessions.last().device_id is None {
            1nat
        } else {
            0nat
        }
    }
}

/// `user_id` is the ID of one of `users`.
pub open spec fn is_user_id(users: Seq<MasNewUserView>, user_id: u128) -> bool {
    exists|i: int| 0 <= i < users.len() && #[trigger] users[i].user_id == user_id
}

/// `user_id` is the ID of one of `users`, whose name is `username`.
pub open spec fn is_named_user(
    users: Seq<MasNewUserView>,
    user_id: u128,
    username: Seq<char>,
) -> bool {
    exists|i: int|
        0 <= i < users.len() && #[trigger] users[i].user_id == user_id && users[i].username
            == username
}

/// A user of `users` is still one when another user is added, and the user
/// added is one.
pub proof fn lemma_users_push(users: Seq<MasNewUserView>, row: MasNewUserView)
    ensures
        is_user_id(users.push(row), row.user_id),
        is_named_user(users.push(row), row.user_id, row.username),
        forall|user_id: u128| #[trigger]
            is_user_id(users, user_id) ==> is_user_id(users.push(row), user_id),
        forall|user_id: u128, username: Seq<char>| #[trigger]
            is_named_user(users, user_id, username) ==> is_named_user(
                users.push(row),
                user_id,
                username,
            ),
{
    let after = users.push(row);
    assert(after[users.len() as int].user_id == row.user_id);
    assert forall|user_id: u128| #[trigger] is_user_id(users, user_id) implies is_user_id(
        after,
        user_id,
    ) by {
        let i = choose|i: int| 0 <= i < users.len() && #[trigger] users[i].user_id == user_id;
        assert(after[i].user_id == user_id);
    }
    assert forall|user_id: u128, username: Seq<char>| #[trigger]
        is_named_user(users, user_id, username) implies is_named_user(
        after,
        user_id,
        username,
    ) by {
        let i = choose|i: int|
            0 <= i < users.len() && #[trigger] users[i].user_id == user_id && users[i].username
                == username;
        assert(after[i].user_id == user_id);
    }
}

/// A user with a name is a user.
pub proof fn lemma_named_user_is_user(
    users: Seq<MasNewUserView>,
    user_id: u128,
    username: Seq<char>,
)
    requires
        is_named_user(users, user_id, username),
    ensures
        is_user_id(users, user_id),
{
    let i = choose|i: int|
        0 <= i < users.len() && #[trigger] users[i].user_id == user_id && users[i].username
            == username;
    assert(users[i].user_id == user_id);
}

/// The users were written as the source rows ask: one destination user per
/// source user, and one password, belonging to a user, per source user that
/// has one.
pub open spec fn users_migrated(
    synapse_users: Seq<SynapseUserView>,
    users: Seq<MasNewUserView>,
    passwords: Seq<MasNewUserPasswordView>,
    server_name: Seq<char>,
) -> bool {
    &&& users.len() == synapse_users.len()
    &&& forall|i: int|
        0 <= i < users.len() ==> user_from(synapse_users[i], server_name, #[trigger] users[i])
    &&& passwords.len() == count_with_password(synapse_users)
    &&& forall|k: int|
        0 <= k < passwords.len() ==> (#[trigger] passwords[k]).dated() && is_user_id(
            users,
            passwords[k].user_id,
        )
}

/// The row at `i` of `threepids` was written as the source row at `i` asks.
pub open spec fn threepid_migrated(
    synapse_threepids: Seq<SynapseThreepidView>,
    threepids: Seq<MasNewThreepidView>,
    server_name: Seq<char>,
    localparts: Map<Seq<char>, u128>,
    i: int,
) -> bool {
    let user = resolve_user(
        synapse_threepids[i].user_id,
        server_name,
        localparts,
        "user_threepids"@,
    );
    user is Ok && threepid_from(synapse_threepids[i], user->Ok_0, threepids[i])
}

/// The third-party identifiers were written as the source rows ask.
pub open spec fn threepids_migrated(
    synapse_threepids: Seq<SynapseThreepidView>,
    threepids: Seq<MasNewThreepidView>,
    server_name: Seq<char>,
    localparts: Map<Seq<char>, u128>,
) -> bool {
    &&& threepids.len() == synapse_threepids.len()
    &&& forall|i: int|
        0 <= i < threepids.len() ==> #[trigger] threepid_migrated(
            synapse_threepids,
            threepids,
            server_name,
            localparts,
            i,
        )
}

/// The user and the upstream provider that the link for `external_id` is
/// made between, or the error that the row is refused with.
pub open spec fn resolve_link(
    external_id: SynapseExternalIdView,
    server_name: Seq<char>,
    localparts: Map<Seq<char>, u128>,
    providers: Map<Seq<char>, u128>,
) -> Result<(u128, u128), ErrorView> {
    match resolve_user(external_id.user_id, server_name, localparts, "user_external_ids"@) {
        Err(error) => Err(error),
        Ok(user_id) => if providers.contains_key(external_id.auth_provider) {
            Ok((user_id, providers[external_id.auth_provider]))
        } else {
            Err(
                ErrorView::MissingAuthProviderMapping {
                    synapse_id: external_id.auth_provider,
                    user: external_id.user_id,
                },
            )
        },
    }
}

/// The row at `i` of `links` was written as the source row at `i` asks.
pub open spec fn link_migrated(
    synapse_external_ids: Seq<SynapseExternalIdView>,
    links: Seq<MasNewUpstreamOauthLinkView>,
    server_name: Seq<char>,
    localparts: Map<Seq<char>, u128>,
    providers: Map<Seq<char>, u128>,
    i: int,
) -> bool {
    let ends = resolve_link(synapse_external_ids[i], server_name, localparts, providers);
    ends is Ok && link_from(synapse_external_ids[i], ends->Ok_0.0, ends->Ok_0.1, links[i])
}

/// The upstream links were written as the source rows ask.
pub open spec fn links_migrated(
    synapse_external_ids: Seq<SynapseExternalIdView>,
    links: Seq<MasNewUpstreamOauthLinkView>,
    server_name: Seq<char>,
    localparts: Map<Seq<char>, u128>,
    providers: Map<Seq<char>, u128>,
) -> bool {
    &&& links.len() == synapse_external_ids.len()
    &&& forall|i: int|
        0 <= i < links.len() ==> #[trigger] link_migrated(
            synapse_external_ids,
            links,
            server_name,
            localparts,
            providers,
            i,
        )
}

/// `session_id` names one of the sessions `deviceless`, a session of the
/// user `user_id`.
pub open spec fn is_deviceless_session(
    deviceless: Seq<MasNewCompatSessionView>,
    session_id: u128,
    user_id: u128,
) -> bool {
    exists|k: int|
        0 <= k < deviceless.len() && #[trigger] deviceless[k].session_id == session_id
            && deviceless[k].user_id == user_id
}

/// The sessions after one was named for `key`: the session that `key` had
/// stays; where it had none, it is `fresh`.
pub open spec fn name_session(
    sessions: Map<(u128, Seq<char>), u128>,
    key: (u128, Seq<char>),
    fresh: u128,
) -> Map<(u128, Seq<char>), u128> {
    if sessions.contains_key(key) {
        sessions
    } else {
        sessions.insert(key, fresh)
    }
}

/// The row at `i` of `access_tokens` was written as the source row at `i`
/// asks: the token of a device in the session named for that device, the
/// token of no device in a session of its own.
pub open spec fn access_token_migrated(
    synapse_access_tokens: Seq<SynapseAccessTokenView>,
    access_tokens: Seq<MasNewCompatAccessTokenView>,
    deviceless: Seq<MasNewCompatSessionView>,
    server_name: Seq<char>,
    localparts: Map<Seq<char>, u128>,
    sessions: Map<(u128, Seq<char>), u128>,
    i: int,
) -> bool {
    let token = synapse_access_tokens[i];
    let row = access_tokens[i];
    let user = resolve_user(token.user_id, server_name, localparts, "access_tokens"@);
    &&& user is Ok
    &&& access_token_from(token, row.session_id, row)
    &&& match token.device_id {
        Some(device_id) => sessions.contains_key((user->Ok_0, device_id)) && sessions[(
            user->Ok_0,
            device_id,
        )] == row.session_id,
        None => is_deviceless_session(deviceless, row.session_id, user->Ok_0),
    }
}

/// The access tokens without a refresh token were written as the source
/// rows ask, and one session for each of them that belongs to no device.
pub open spec fn access_tokens_migrated(
    synapse_access_tokens: Seq<SynapseAccessTokenView>,
    access_tokens: Seq<MasNewCompatAccessTokenView>,
    deviceless: Seq<MasNewCompatSessionView>,
    users: Seq<MasNewUserView>,
    server_name: Seq<char>,
    localparts: Map<Seq<char>, u128>,
    sessions: Map<(u128, Seq<char>), u128>,
) -> bool {
    &&& access_tokens.len() == synapse_access_tokens.len()
    &&& deviceless.len() == count_deviceless_tokens(synapse_access_tokens)
    &&& forall|k: int|
        0 <= k < deviceless.len() ==> deviceless_session_from(
            deviceless[k].user_id,
            #[trigger] deviceless[k],
        ) && is_user_id(users, deviceless[k].user_id)
    &&& forall|i: int|
        0 <= i < access_tokens.len() ==> #[trigger] access_token_migrated(
            synapse_access_tokens,
            access_tokens,
            deviceless,
            server_name,
            localparts,
            sessions,
            i,
        )
}

/// The rows at `i` of `pair_access_tokens` and `refresh_tokens` were
/// written as the source pair at `i` asks, in the session named for the
/// pair's device.
pub open spec fn token_pair_migrated(
    synapse_token_pairs: Seq<SynapseRefreshableTokenPairView>,
    pair_access_tokens: Seq<MasNewCompatAccessTokenView>,
    refresh_tokens: Seq<MasNewCompatRefreshTokenView>,
    server_name: Seq<char>,
    localparts: Map<Seq<char>, u128>,
    sessions: Map<(u128, Seq<char>), u128>,
    i: int,
) -> bool {
    let pair = synapse_token_pairs[i];
    let user = resolve_user(pair.user_id, server_name, localparts, "refresh_tokens"@);
    &&& user is Ok
    &&& sessions.contains_key((user->Ok_0, pair.device_id))
    &&& token_pair_from(
        pair,
        sessions[(user->Ok_0, pair.device_id)],
        pair_access_tokens[i],
        refresh_tokens[i],
    )
}

/// The refreshable token pairs were written as the source rows ask.
pub open spec fn token_pairs_migrated(
    synapse_token_pairs: Seq<SynapseRefreshableTokenPairView>,
    pair_access_tokens: Seq<MasNewCompatAccessTokenView>,
    refresh_tokens: Seq<MasNewCompatRefreshTokenView>,
    server_name: Seq<char>,
    localparts: Map<Seq<char>, u128>,
    sessions: Map<(u128, Seq<char>), u128>,
) -> bool {
    &&& pair_access_tokens.len() == synapse_token_pairs.len()
    &&& refresh_tokens.len() == synapse_token_pairs.len()
    &&& forall|i: int|
        0 <= i < refresh_tokens.len() ==> #[trigger] token_pair_migrated(
            synapse_token_pairs,
            pair_access_tokens,
            refresh_tokens,
            server_name,
            localparts,
            sessions,
            i,
        )
}

/// The row at `i` of `device_sessions` was written as the source device at
/// `i` asks, under the name that the index holds for the device.
pub open spec fn device_migrated(
    synapse_devices: Seq<SynapseDeviceView>,
    device_sessions: Seq<MasNewCompatSessionView>,
    server_name: Seq<char>,
    localparts: Map<Seq<char>, u128>,
    sessions: Map<(u128, Seq<char>), u128>,
    admins: Set<u128>,
    i: int,
) -> bool {
    let device = synapse_devices[i];
    let user = resolve_user(device.user_id, server_name, localparts, "devices"@);
    &&& user is Ok
    &&& sessions.contains_key((user->Ok_0, device.device_id))
    &&& device_session_from(
        device,
        user->Ok_0,
        sessions[(user->Ok_0, device.device_id)],
        admins.contains(user->Ok_0),
        device_sessions[i],
    )
}

/// The sessions of the devices were written as the source rows ask.
pub open spec fn devices_migrated(
    synapse_devices: Seq<SynapseDeviceView>,
    device_sessions: Seq<MasNewCompatSessionView>,
    server_name: Seq<char>,
    localparts: Map<Seq<char>, u128>,
    sessions: Map<(u128, Seq<char>), u128>,
    admins: Set<u128>,
) -> bool {
    &&& device_sessions.len() == synapse_devices.len()
    &&& forall|i: int|
        0 <= i < device_sessions.len() ==> #[trigger] device_migrated(
            synapse_devices,
            device_sessions,
            server_name,
            localparts,
            sessions,
            admins,
            i,
        )
}

/// The device that the access token at `i` belongs to, with its user; none
/// where the token belongs to no device.
pub open spec fn access_token_key(
    synapse_access_tokens: Seq<SynapseAccessTokenView>,
    server_name: Seq<char>,
    localparts: Map<Seq<char>, u128>,
    i: int,
) -> Option<(u128, Seq<char>)> {
    match synapse_access_tokens[i].device_id {
        Some(device_id) => Some(
            (
                resolve_user(
                    synapse_access_tokens[i].user_id,
                    server_name,
                    localparts,
                    "access_tokens"@,
                )->Ok_0,
                device_id,
            ),
        ),
        None => None,
    }
}

/// The device that the token pair at `i` belongs to, with its user.
pub open spec fn token_pair_key(
    synapse_token_pairs: Seq<SynapseRefreshableTokenPairView>,
    server_name: Seq<char>,
    localparts: Map<Seq<char>, u128>,
    i: int,
) -> (u128, Seq<char>) {
    (
        resolve_user(synapse_token_pairs[i].user_id, server_name, localparts, "refresh_tokens"@)->Ok_0,
        synapse_token_pairs[i].device_id,
    )
}

/// The access token at `i` is the first that was read for its device.
pub open spec fn is_first_access_token(
    synapse_access_tokens: Seq<SynapseAccessTokenView>,
    server_name: Seq<char>,
    localparts: Map<Seq<char>, u128>,
    i: int,
) -> bool {
    &&& access_token_key(synapse_access_tokens, server_name, localparts, i) is Some
    &&& forall|h: int|
        0 <= h < i ==> #[trigger] access_token_key(synapse_access_tokens, server_name, localparts, h)
            != access_token_key(synapse_access_tokens, server_name, localparts, i)
}

/// The token pair at `i` is the first token that was read for its device:
/// no access token without a refresh token belongs to the device, nor an
/// earlier pair.
pub open spec fn is_first_token_pair(
    synapse_access_tokens: Seq<SynapseAccessTokenView>,
    synapse_token_pairs: Seq<SynapseRefreshableTokenPairView>,
    server_name: Seq<char>,
    localparts: Map<Seq<char>, u128>,
    i: int,
) -> bool {
    &&& forall|h: int|
        0 <= h < synapse_access_tokens.len() ==> #[trigger] access_token_key(
            synapse_access_tokens,
            server_name,
            localparts,
            h,
        ) != Some(token_pair_key(synapse_token_pairs, server_name, localparts, i))
    &&& forall|h: int|
        0 <= h < i ==> #[trigger] token_pair_key(synapse_token_pairs, server_name, localparts, h)
            != token_pair_key(synapse_token_pairs, server_name, localparts, i)
}

/// A token was read for the device `key`.
pub open spec fn has_token(
    synapse_access_tokens: Seq<SynapseAccessTokenView>,
    synapse_token_pairs: Seq<SynapseRefreshableTokenPairView>,
    server_name: Seq<char>,
    localparts: Map<Seq<char>, u128>,
    key: (u128, Seq<char>),
) -> bool {
    ||| exists|i: int|
        0 <= i < synapse_access_tokens.len() && #[trigger] access_token_key(
            synapse_access_tokens,
            server_name,
            localparts,
            i,
        ) == Some(key)
    ||| exists|i: int|
        0 <= i < synapse_token_pairs.len() && #[trigger] token_pair_key(
            synapse_token_pairs,
            server_name,
            localparts,
            i,
        ) == key
}

/// The session of a device is as old as the first token that was read for
/// the device: the name that the token gave it carries the token's creation
/// time.
pub open spec fn sessions_dated_by_first_tokens(
    synapse_access_tokens: Seq<SynapseAccessTokenView>,
    access_tokens: Seq<MasNewCompatAccessTokenView>,
    synapse_token_pairs: Seq<SynapseRefreshableTokenPairView>,
    pair_access_tokens: Seq<MasNewCompatAccessTokenView>,
    server_name: Seq<char>,
    localparts: Map<Seq<char>, u128>,
) -> bool {
    &&& forall|i: int|
        0 <= i < access_tokens.len() && #[trigger] is_first_access_token(
            synapse_access_tokens,
            server_name,
            localparts,
            i,
        ) ==> id_timestamp(access_tokens[i].session_id) == access_tokens[i].created_at@
    &&& forall|i: int|
        0 <= i < pair_access_tokens.len() && #[trigger] is_first_token_pair(
            synapse_access_tokens,
            synapse_token_pairs,
            server_name,
            localparts,
            i,
        ) ==> id_timestamp(pair_access_tokens[i].session_id) == pair_access_tokens[i].created_at@
}

/// The time that a token's rows are dated by: the time the token was last
/// validated, or the time of the migration where that is not known.
pub open spec fn token_created_at(last_validated: Option<Timestamp>, now: Timestamp) -> Timestamp {
    match last_validated {
        Some(last_validated) => last_validated,
        None => now,
    }
}

/// Naming a session leaves the access tokens written before as they were
/// asked for.
pub proof fn lemma_access_tokens_keep_sessions(
    synapse_access_tokens: Seq<SynapseAccessTokenView>,
    access_tokens: Seq<MasNewCompatAccessTokenView>,
    deviceless: Seq<MasNewCompatSessionView>,
    users: Seq<MasNewUserView>,
    server_name: Seq<char>,
    localparts: Map<Seq<char>, u128>,
    sessions: Map<(u128, Seq<char>), u128>,
    key: (u128, Seq<char>),
    fresh: u128,
)
    requires
        access_tokens_migrated(
            synapse_access_tokens,
            access_tokens,
            deviceless,
            users,
            server_name,
            localparts,
            sessions,
        ),
    ensures
        access_tokens_migrated(
            synapse_access_tokens,
            access_tokens,
            deviceless,
            users,
            server_name,
            localparts,
            name_session(sessions, key, fresh),
        ),
{
    let named = name_session(sessions, key, fresh);
    assert forall|i: int| 0 <= i < access_tokens.len() implies #[trigger] access_token_migrated(
        synapse_access_tokens,
        access_tokens,
        deviceless,
        server_name,
        localparts,
        named,
        i,
    ) by {
        assert(access_token_migrated(
            synapse_access_tokens,
            access_tokens,
            deviceless,
            server_name,
            localparts,
            sessions,
            i,
        ));
    }
}

/// Naming a session leaves the token pairs written before as they were
/// asked for.
pub proof fn lemma_token_pairs_keep_sessions(
    synapse_token_pairs: Seq<SynapseRefreshableTokenPairView>,
    pair_access_tokens: Seq<MasNewCompatAccessTokenView>,
    refresh_tokens: Seq<MasNewCompatRefreshTokenView>,
    server_name: Seq<char>,
    localparts: Map<Seq<char>, u128>,
    sessions: Map<(u128, Seq<char>), u128>,
    key: (u128, Seq<char>),
    fresh: u128,
)
    requires
        token_pairs_migrated(
            synapse_token_pairs,
            pair_access_tokens,
            refresh_tokens,
            server_name,
            localparts,
            sessions,
        ),
    ensures
        token_pairs_migrated(
            synapse_token_pairs,
            pair_access_tokens,
            refresh_tokens,
            server_name,
            localparts,
            name_session(sessions, key, fresh),
        ),
{
    let named = name_session(sessions, key, fresh);
    assert forall|i: int| 0 <= i < refresh_tokens.len() implies #[trigger] token_pair_migrated(
        synapse_token_pairs,
        pair_access_tokens,
        refresh_tokens,
        server_name,
        localparts,
        named,
        i,
    ) by {
        assert(token_pair_migrated(
            synapse_token_pairs,
            pair_access_tokens,
            refresh_tokens,
            server_name,
            localparts,
            sessions,
            i,
        ));
    }
}

/// Naming a session leaves the device sessions written before as they were
/// asked for.
pub proof fn lemma_devices_keep_sessions(
    synapse_devices: Seq<SynapseDeviceView>,
    device_sessions: Seq<MasNewCompatSessionView>,
    server_name: Seq<char>,
    localparts: Map<Seq<char>, u128>,
    sessions: Map<(u128, Seq<char>), u128>,
    admins: Set<u128>,
    key: (u128, Seq<char>),
    fresh: u128,
)
    requires
        devices_migrated(
            synapse_devices,
            device_sessions,
            server_name,
            localparts,
            sessions,
            admins,
        ),
    ensures
        devices_migrated(
            synapse_devices,
            device_sessions,
            server_name,
            localparts,
            name_session(sessions, key, fresh),
            admins,
        ),
{
    let named = name_session(sessions, key, fresh);
    assert forall|i: int| 0 <= i < device_sessions.len() implies #[trigger] device_migrated(
        synapse_devices,
        device_sessions,
        server_name,
        localparts,
        named,
        admins,
        i,
    ) by {
        assert(device_migrated(
            synapse_devices,
            device_sessions,
            server_name,
            localparts,
            sessions,
            admins,
            i,
        ));
    }
}

/// The access tokens stay as they were asked for when one more is read and
/// written as asked, together with its session where it belongs to no
/// device.
pub proof fn lemma_access_tokens_push(
    synapse_access_tokens: Seq<SynapseAccessTokenView>,
    access_tokens: Seq<MasNewCompatAccessTokenView>,
    deviceless: Seq<MasNewCompatSessionView>,
    users: Seq<MasNewUserView>,
    server_name: Seq<char>,
    localparts: Map<Seq<char>, u128>,
    sessions: Map<(u128, Seq<char>), u128>,
    token: SynapseAccessTokenView,
    row: MasNewCompatAccessTokenView,
    session: Option<MasNewCompatSessionView>,
)
    requires
        access_tokens_migrated(
            synapse_access_tokens,
            access_tokens,
            deviceless,
            users,
            server_name,
            localparts,
            sessions,
        ),
        resolve_user(token.user_id, server_name, localparts, "access_tokens"@) is Ok,
        access_token_from(token, row.session_id, row),
        match token.device_id {
            Some(device_id) => {
                let user_id = resolve_user(
                    token.user_id,
                    server_name,
                    localparts,
                    "access_tokens"@,
                )->Ok_0;
                &&& session is None
                &&& sessions.contains_key((user_id, device_id))
                &&& sessions[(user_id, device_id)] == row.session_id
            },
            None => {
                let user_id = resolve_user(
                    token.user_id,
                    server_name,
                    localparts,
                    "access_tokens"@,
                )->Ok_0;
                &&& session is Some
                &&& deviceless_session_from(user_id, session->0)
                &&& session->0.session_id == row.session_id
                &&& is_user_id(users, user_id)
            },
        },
    ensures
        access_tokens_migrated(
            synapse_access_tokens.push(token),
            access_tokens.push(row),
            match session {
                Some(session) => deviceless.push(session),
                None => deviceless,
            },
            users,
            server_name,
            localparts,
            sessions,
        ),
{
    let tokens_after = synapse_access_tokens.push(token);
    let rows_after = access_tokens.push(row);
    let deviceless_after = match session {
        Some(session) => deviceless.push(session),
        None => deviceless,
    };
    lemma_count_deviceless_tokens_push(synapse_access_tokens, token);
    assert forall|session_id: u128, user_id: u128|
        is_deviceless_session(deviceless, session_id, user_id) implies #[trigger] is_deviceless_session(
        deviceless_after,
        session_id,
        user_id,
    ) by {
        let k = choose|k: int|
            0 <= k < deviceless.len() && #[trigger] deviceless[k].session_id == session_id
                && deviceless[k].user_id == user_id;
        assert(deviceless_after[k].session_id == session_id);
    }
    assert forall|k: int| 0 <= k < deviceless_after.len() implies deviceless_session_from(
        deviceless_after[k].user_id,
        #[trigger] deviceless_after[k],
    ) && is_user_id(users, deviceless_after[k].user_id) by {
        if k < deviceless.len() {
            assert(deviceless_after[k] == deviceless[k]);
        }
    }
    assert forall|i: int| 0 <= i < rows_after.len() implies #[trigger] access_token_migrated(
        tokens_after,
        rows_after,
        deviceless_after,
        server_name,
        localparts,
        sessions,
        i,
    ) by {
        if i < access_tokens.len() {
            assert(access_token_migrated(
                synapse_access_tokens,
                access_tokens,
                deviceless,
                server_name,
                localparts,
                sessions,
                i,
            ));
        } else {
            if token.device_id is None {
                assert(deviceless_after[deviceless.len() as int].session_id == row.session_id);
            }
        }
    }
}

/// The token pairs stay as they were asked for when one more is read and
/// written as asked.
pub proof fn lemma_token_pairs_push(
    synapse_token_pairs: Seq<SynapseRefreshableTokenPairView>,
    pair_access_tokens: Seq<MasNewCompatAccessTokenView>,
    refresh_tokens: Seq<MasNewCompatRefreshTokenView>,
    server_name: Seq<char>,
    localparts: Map<Seq<char>, u128>,
    sessions: Map<(u128, Seq<char>), u128>,
    pair: SynapseRefreshableTokenPairView,
    access: MasNewCompatAccessTokenView,
    refresh: MasNewCompatRefreshTokenView,
)
    requires
        token_pairs_migrated(
            synapse_token_pairs,
            pair_access_tokens,
            refresh_tokens,
            server_name,
            localparts,
            sessions,
        ),
        token_pair_migrated(
            synapse_token_pairs.push(pair),
            pair_access_tokens.push(access),
            refresh_tokens.push(refresh),
            server_name,
            localparts,
            sessions,
            synapse_token_pairs.len() as int,
        ),
    ensures
        token_pairs_migrated(
            synapse_token_pairs.push(pair),
            pair_access_tokens.push(access),
            refresh_tokens.push(refresh),
            server_name,
            localparts,
            sessions,
        ),
{
    assert forall|i: int|
        0 <= i < refresh_tokens.push(refresh).len() implies #[trigger] token_pair_migrated(
        synapse_token_pairs.push(pair),
        pair_access_tokens.push(access),
        refresh_tokens.push(refresh),
        server_name,
        localparts,
        sessions,
        i,
    ) by {
        if i < refresh_tokens.len() {
            assert(token_pair_migrated(
                synapse_token_pairs,
                pair_access_tokens,
                refresh_tokens,
                server_name,
                localparts,
                sessions,
                i,
            ));
        }
    }
}

/// The device sessions stay as they were asked for when one more device is
/// read and its session written as asked.
pub proof fn lemma_devices_push(
    synapse_devices: Seq<SynapseDeviceView>,
    device_sessions: Seq<MasNewCompatSessionView>,
    server_name: Seq<char>,
    localparts: Map<Seq<char>, u128>,
    sessions: Map<(u128, Seq<char>), u128>,
    admins: Set<u128>,
    device: SynapseDeviceView,
    row: MasNewCompatSessionView,
)
    requires
        devices_migrated(
            synapse_devices,
            device_sessions,
            server_name,
            localparts,
            sessions,
            admins,
        ),
        device_migrated(
            synapse_devices.push(device),
            device_sessions.push(row),
            server_name,
            localparts,
            sessions,
            admins,
            synapse_devices.len() as int,
        ),
    ensures
        devices_migrated(
            synapse_devices.push(device),
            device_sessions.push(row),
            server_name,
            localparts,
            sessions,
            admins,
        ),
{
    assert forall|i: int|
        0 <= i < device_sessions.push(row).len() implies #[trigger] device_migrated(
        synapse_devices.push(device),
        device_sessions.push(row),
        server_name,
        localparts,
        sessions,
        admins,
        i,
    ) by {
        if i < device_sessions.len() {
            assert(device_migrated(
                synapse_devices,
                device_sessions,
                server_name,
                localparts,
                sessions,
                admins,
                i,
            ));
        }
    }
}

/// Adding a user adds one to the count of users with a password where the
/// user has one.
pub proof fn lemma_count_with_password_push(users: Seq<SynapseUserView>, user: SynapseUserView)
    ensures
        count_with_password(users.push(user)) == count_with_password(users) + if user.password_hash is Some {
            1nat
        } else {
            0nat
        },
{
    assert(users.push(user).drop_last() =~= users);
}

/// Adding a token adds one to the count of tokens without a device where
/// the token has none.
pub proof fn lemma_count_deviceless_tokens_push(
    tokens: Seq<SynapseAccessTokenView>,
    token: SynapseAccessTokenView,
)
    ensures
        count_deviceless_tokens(tokens.push(token)) == count_deviceless_tokens(tokens) + if token.device_id is None {
            1nat
        } else {
            0nat
        },
{
    assert(tokens.push(token).drop_last() =~= tokens);
}

/// What a migration has read and written so far. Rows read from one source
/// table stand in the order of reading; the rows written for them stand at
/// the same positions, except the passwords and the deviceless sessions,
/// which only some source rows give rise to.
pub struct Record {
    pub synapse_users: Seq<SynapseUserView>,
    pub users: Seq<MasNewUserView>,
    pub passwords: Seq<MasNewUserPasswordView>,
    pub synapse_threepids: Seq<SynapseThreepidView>,
    pub threepids: Seq<MasNewThreepidView>,
    pub synapse_external_ids: Seq<SynapseExternalIdView>,
    pub upstream_oauth_links: Seq<MasNewUpstreamOauthLinkView>,
    pub synapse_access_tokens: Seq<SynapseAccessTokenView>,
    pub access_tokens: Seq<MasNewCompatAccessTokenView>,
    pub deviceless_sessions: Seq<MasNewCompatSessionView>,
    pub synapse_token_pairs: Seq<SynapseRefreshableTokenPairView>,
    pub pair_access_tokens: Seq<MasNewCompatAccessTokenView>,
    pub refresh_tokens: Seq<MasNewCompatRefreshTokenView>,
    pub synapse_devices: Seq<SynapseDeviceView>,
    pub device_sessions: Seq<MasNewCompatSessionView>,
}

impl Record {
    /// The record of a migration that has not read anything yet.
    pub open spec fn empty() -> Record {
        Record {
            synapse_users: Seq::empty(),
            users: Seq::empty(),
            passwords: Seq::empty(),
            synapse_threepids: Seq::empty(),
            threepids: Seq::empty(),
            synapse_external_ids: Seq::empty(),
            upstream_oauth_links: Seq::empty(),
            synapse_access_tokens: Seq::empty(),
            access_tokens: Seq::empty(),
            deviceless_sessions: Seq::empty(),
            synapse_token_pairs: Seq::empty(),
            pair_access_tokens: Seq::empty(),
            refresh_tokens: Seq::empty(),
            synapse_devices: Seq::empty(),
            device_sessions: Seq::empty(),
        }
    }

    /// The record after the user `user` was read and `row`, with `password`
    /// where there is one, was written for it.
    pub open spec fn with_user(
        self,
        user: SynapseUserView,
        row: MasNewUserView,
        password: Option<MasNewUserPasswordView>,
    ) -> Record {
        Record {
            synapse_users: self.synapse_users.push(user),
            users: self.users.push(row),
            passwords: match password {
                Some(password) => self.passwords.push(password),
                None => self.passwords,
            },
            ..self
        }
    }

    /// The record after `threepid` was read and `row` written for it.
    pub open spec fn with_threepid(
        self,
        threepid: SynapseThreepidView,
        row: MasNewThreepidView,
    ) -> Record {
        Record {
            synapse_threepids: self.synapse_threepids.push(threepid),
            threepids: self.threepids.push(row),
            ..self
        }
    }

    /// The record after `external_id` was read and `row` written for it.
    pub open spec fn with_external_id(
        self,
        external_id: SynapseExternalIdView,
        row: MasNewUpstreamOauthLinkView,
    ) -> Record {
        Record {
            synapse_external_ids: self.synapse_external_ids.push(external_id),
            upstream_oauth_links: self.upstream_oauth_links.push(row),
            ..self
        }
    }

    /// The record after `token` was read and `row`, with `session` where the
    /// token belongs to no device, was written for it.
    pub open spec fn with_access_token(
        self,
        token: SynapseAccessTokenView,
        row: MasNewCompatAccessTokenView,
        session: Option<MasNewCompatSessionView>,
    ) -> Record {
        Record {
            synapse_access_tokens: self.synapse_access_tokens.push(token),
            access_tokens: self.access_tokens.push(row),
            deviceless_sessions: match session {
                Some(session) => self.deviceless_sessions.push(session),
                None => self.deviceless_sessions,
            },
            ..self
        }
    }

    /// The record after `pair` was read and `access` and `refresh` were
    /// written for it.
    pub open spec fn with_token_pair(
        self,
        pair: SynapseRefreshableTokenPairView,
        access: MasNewCompatAccessTokenView,
        refresh: MasNewCompatRefreshTokenView,
    ) -> Record {
        Record {
            synapse_token_pairs: self.synapse_token_pairs.push(pair),
            pair_access_tokens: self.pair_access_tokens.push(access),
            refresh_tokens: self.refresh_tokens.push(refresh),
            ..self
        }
    }

    /// The record after `device` was read and `row` written for it.
    pub open spec fn with_device(
        self,
        device: SynapseDeviceView,
        row: MasNewCompatSessionView,
    ) -> Record {
        Record {
            synapse_devices: self.synapse_devices.push(device),
            device_sessions: self.device_sessions.push(row),
            ..self
        }
    }

    /// `user_id` is the ID of a user that was written.
    pub open spec fn has_user(self, user_id: u128) -> bool {
        is_user_id(self.users, user_id)
    }

    /// The IDs written for the users that are administrators at the source.
    pub open spec fn admin_ids(self) -> Set<u128> {
        Set::new(
            |user_id: u128|
                exists|i: int|
                    0 <= i < self.users.len() && i < self.synapse_users.len()
                        && self.synapse_users[i].admin && #[trigger] self.users[i].user_id
                        == user_id,
        )
    }

    /// Every session that was written: those of tokens without a device,
    /// then those of the devices.
    pub open spec fn compat_sessions(self) -> Seq<MasNewCompatSessionView> {
        self.deviceless_sessions + self.device_sessions
    }

    /// Every access token that was written: those without a refresh token,
    /// then those with one.
    pub open spec fn compat_access_tokens(self) -> Seq<MasNewCompatAccessTokenView> {
        self.access_tokens + self.pair_access_tokens
    }

    /// `session_id` names a session that was written.
    pub open spec fn has_session(self, session_id: u128) -> bool {
        exists|i: int|
            0 <= i < self.compat_sessions().len() && #[trigger] self.compat_sessions()[i].session_id
                == session_id
    }
}

} // verus!
