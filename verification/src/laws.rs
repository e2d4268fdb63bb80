//! What holds of every migration, whatever it has read.
//!
//! Each law is stated of a state that a migration can be in, and follows
//! from what the steps of the migration promise of the rows they return.

use crate::localpart::full_user_id;
use crate::mas::MasNewCompatSessionView;
use crate::state::{lemma_resolved_is_user, MigrationView};
use crate::record::{
    access_token_key, access_token_migrated, count_deviceless_sessions,
    count_deviceless_tokens, count_with_password, device_migrated, is_first_access_token,
    is_first_token_pair, link_migrated, resolve_user, threepid_migrated, token_pair_key,
    token_pair_migrated,
};
use vstd::prelude::*;

verus! {

/// The user and the device that the device row at `d` stands for.
pub open spec fn device_key(state: MigrationView, d: int) -> (u128, Seq<char>) {
    (
        resolve_user(
            state.record.synapse_devices[d].user_id,
            state.server_name,
            state.localparts,
            "devices"@,
        )->Ok_0,
        state.record.synapse_devices[d].device_id,
    )
}

/// A row of the device `device_id` of the user `user_id` was read.
pub open spec fn device_was_read(state: MigrationView, user_id: u128, device_id: Seq<char>) -> bool {
    exists|d: int|
        0 <= d < state.record.synapse_devices.len() && #[trigger] device_key(state, d) == (
            user_id,
            device_id,
        )
}

/// No two device rows that were read stand for the same device of the same
/// user.
pub open spec fn devices_distinct(state: MigrationView) -> bool {
    forall|c: int, d: int|
        0 <= c < d < state.record.synapse_devices.len() ==> #[trigger] device_key(state, c)
            != #[trigger] device_key(state, d)
}

/// `session` is a session of the device `device_id` of the user `user_id`.
pub open spec fn is_session_of(
    session: MasNewCompatSessionView,
    user_id: u128,
    device_id: Seq<char>,
) -> bool {
    session.user_id == user_id && session.device_id == Some(device_id)
}

/// Every user that was written goes by the localpart of the source user it
/// was made for: putting the name back between `@` and the server name gives
/// the source user ID.
pub proof fn law_user_id_round_trip(state: MigrationView, i: int)
    requires
        state.inv(),
        0 <= i < state.record.users.len(),
    ensures
        full_user_id(state.record.users[i].username, state.server_name)
            == state.record.synapse_users[i].name,
{
}

/// Every row that was written with an identifier of its own was given one
/// that carries the row's creation time.
pub proof fn law_ids_carry_creation_time(state: MigrationView)
    requires
        state.inv(),
    ensures
        forall|i: int| 0 <= i < state.record.users.len() ==> (#[trigger] state.record.users[i]).dated(),
        forall|i: int|
            0 <= i < state.record.passwords.len() ==> (#[trigger] state.record.passwords[i]).dated(),
        forall|i: int|
            0 <= i < state.record.threepids.len() ==> (#[trigger] state.record.threepids[i]).dated(),
        forall|i: int|
            0 <= i < state.record.upstream_oauth_links.len() ==> (
            #[trigger] state.record.upstream_oauth_links[i]).dated(),
        forall|i: int|
            0 <= i < state.record.compat_access_tokens().len() ==> (
            #[trigger] state.record.compat_access_tokens()[i]).dated(),
        forall|i: int|
            0 <= i < state.record.refresh_tokens.len() ==> (
            #[trigger] state.record.refresh_tokens[i]).dated(),
        forall|i: int|
            0 <= i < state.record.compat_sessions().len() ==> (
            #[trigger] state.record.compat_sessions()[i]).dated(),
{
    let record = state.record;
    assert forall|i: int| 0 <= i < record.threepids.len() implies (
    #[trigger] record.threepids[i]).dated() by {
        assert(threepid_migrated(
            record.synapse_threepids,
            record.threepids,
            state.server_name,
            state.localparts,
            i,
        ));
    }
    assert forall|i: int| 0 <= i < record.upstream_oauth_links.len() implies (
    #[trigger] record.upstream_oauth_links[i]).dated() by {
        assert(link_migrated(
            record.synapse_external_ids,
            record.upstream_oauth_links,
            state.server_name,
            state.localparts,
            state.providers,
            i,
        ));
    }
    assert forall|i: int| 0 <= i < record.compat_access_tokens().len() implies (
    #[trigger] record.compat_access_tokens()[i]).dated() by {
        if i < record.access_tokens.len() {
            assert(access_token_migrated(
                record.synapse_access_tokens,
                record.access_tokens,
                record.deviceless_sessions,
                state.server_name,
                state.localparts,
                state.sessions,
                i,
            ));
        } else {
            assert(token_pair_migrated(
                record.synapse_token_pairs,
                record.pair_access_tokens,
                record.refresh_tokens,
                state.server_name,
                state.localparts,
                state.sessions,
                i - record.access_tokens.len(),
            ));
        }
    }
    assert forall|i: int| 0 <= i < record.refresh_tokens.len() implies (
    #[trigger] record.refresh_tokens[i]).dated() by {
        assert(token_pair_migrated(
            record.synapse_token_pairs,
            record.pair_access_tokens,
            record.refresh_tokens,
            state.server_name,
            state.localparts,
            state.sessions,
            i,
        ));
    }
    assert forall|i: int| 0 <= i < record.compat_sessions().len() implies (
    #[trigger] record.compat_sessions()[i]).dated() by {
        if i < record.deviceless_sessions.len() {
            assert(record.compat_sessions()[i] == record.deviceless_sessions[i]);
        } else {
            assert(device_migrated(
                record.synapse_devices,
                record.device_sessions,
                state.server_name,
                state.localparts,
                state.sessions,
                state.admins,
                i - record.deviceless_sessions.len(),
            ));
        }
    }
}

/// As many passwords were written as users with a password were read, and
/// each password belongs to a user that was written.
pub proof fn law_password_coupling(state: MigrationView)
    requires
        state.inv(),
    ensures
        state.record.passwords.len() == count_with_password(state.record.synapse_users),
        forall|k: int|
            0 <= k < state.record.passwords.len() ==> state.record.has_user(
                (#[trigger] state.record.passwords[k]).user_id,
            ),
{
}

/// Every row that was written for a user belongs to a user that was
/// written.
pub proof fn law_rows_belong_to_users(state: MigrationView)
    requires
        state.inv(),
    ensures
        forall|i: int|
            0 <= i < state.record.threepids.len() ==> state.record.has_user(
                (#[trigger] state.record.threepids[i]).user_id(),
            ),
        forall|i: int|
            0 <= i < state.record.upstream_oauth_links.len() ==> state.record.has_user(
                (#[trigger] state.record.upstream_oauth_links[i]).user_id,
            ),
        forall|i: int|
            0 <= i < state.record.compat_sessions().len() ==> state.record.has_user(
                (#[trigger] state.record.compat_sessions()[i]).user_id,
            ),
{
    let record = state.record;
    assert forall|i: int| 0 <= i < record.threepids.len() implies record.has_user(
        (#[trigger] record.threepids[i]).user_id(),
    ) by {
        assert(threepid_migrated(
            record.synapse_threepids,
            record.threepids,
            state.server_name,
            state.localparts,
            i,
        ));
        lemma_resolved_is_user(state, record.synapse_threepids[i].user_id, "user_threepids"@);
    }
    assert forall|i: int| 0 <= i < record.upstream_oauth_links.len() implies record.has_user(
        (#[trigger] record.upstream_oauth_links[i]).user_id,
    ) by {
        assert(link_migrated(
            record.synapse_external_ids,
            record.upstream_oauth_links,
            state.server_name,
            state.localparts,
            state.providers,
            i,
        ));
        lemma_resolved_is_user(
            state,
            record.synapse_external_ids[i].user_id,
            "user_external_ids"@,
        );
    }
    assert forall|i: int| 0 <= i < record.compat_sessions().len() implies record.has_user(
        (#[trigger] record.compat_sessions()[i]).user_id,
    ) by {
        if i < record.deviceless_sessions.len() {
            assert(record.compat_sessions()[i] == record.deviceless_sessions[i]);
        } else {
            let d = i - record.deviceless_sessions.len();
            assert(device_migrated(
                record.synapse_devices,
                record.device_sessions,
                state.server_name,
                state.localparts,
                state.sessions,
                state.admins,
                d,
            ));
            lemma_resolved_is_user(state, record.synapse_devices[d].user_id, "devices"@);
        }
    }
}

/// Where no device was read twice, exactly one session was written for
/// each device that was read: the session at the place of the device's row,
/// behind the sessions of the tokens without a device.
pub proof fn law_session_uniqueness(state: MigrationView, d: int)
    requires
        state.inv(),
        devices_distinct(state),
        0 <= d < state.record.synapse_devices.len(),
    ensures
        ({
            let sessions = state.record.compat_sessions();
            let place = state.record.deviceless_sessions.len() + d;
            let key = device_key(state, d);
            &&& place < sessions.len()
            &&& is_session_of(sessions[place], key.0, key.1)
            &&& forall|s: int|
                0 <= s < sessions.len() && is_session_of(#[trigger] sessions[s], key.0, key.1)
                    ==> s == place
        }),
{
    let record = state.record;
    let sessions = record.compat_sessions();
    let offset = record.deviceless_sessions.len() as int;
    let key = device_key(state, d);
    assert(device_migrated(
        record.synapse_devices,
        record.device_sessions,
        state.server_name,
        state.localparts,
        state.sessions,
        state.admins,
        d,
    ));
    assert forall|s: int|
        0 <= s < sessions.len() && is_session_of(#[trigger] sessions[s], key.0, key.1) implies s
        == offset + d by {
        if s < offset {
            assert(sessions[s] == record.deviceless_sessions[s]);
        } else {
            let c = s - offset;
            assert(device_migrated(
                record.synapse_devices,
                record.device_sessions,
                state.server_name,
                state.localparts,
                state.sessions,
                state.admins,
                c,
            ));
            assert(device_key(state, c) == key);
            if c < d {
                assert(device_key(state, c) != device_key(state, d));
            } else if d < c {
                assert(device_key(state, d) != device_key(state, c));
            }
        }
    }
}

/// The sessions of `sessions` that belong to no device are as many as
/// `sessions` holds, where none belongs to a device.
proof fn lemma_count_all_deviceless(sessions: Seq<MasNewCompatSessionView>)
    requires
        forall|k: int| 0 <= k < sessions.len() ==> (#[trigger] sessions[k]).device_id is None,
    ensures
        count_deviceless_sessions(sessions) == sessions.len(),
    decreases sessions.len(),
{
    if sessions.len() > 0 {
        assert(sessions.last().device_id is None);
        lemma_count_all_deviceless(sessions.drop_last());
    }
}

/// Sessions of devices add nothing to the count of sessions that belong to
/// no device.
proof fn lemma_count_skips_devices(
    first: Seq<MasNewCompatSessionView>,
    second: Seq<MasNewCompatSessionView>,
)
    requires
        forall|k: int| 0 <= k < second.len() ==> (#[trigger] second[k]).device_id is Some,
    ensures
        count_deviceless_sessions(first + second) == count_deviceless_sessions(first),
    decreases second.len(),
{
    if second.len() == 0 {
        assert(first + second =~= first);
    } else {
        assert((first + second).drop_last() =~= first + second.drop_last());
        assert((first + second).last() == second.last());
        assert(second.last().device_id is Some);
        lemma_count_skips_devices(first, second.drop_last());
    }
}

/// As many sessions without a device were written as access tokens without
/// a device were read.
pub proof fn law_deviceless_sessions(state: MigrationView)
    requires
        state.inv(),
    ensures
        count_deviceless_sessions(state.record.compat_sessions()) == count_deviceless_tokens(
            state.record.synapse_access_tokens,
        ),
{
    let record = state.record;
    assert forall|k: int| 0 <= k < record.device_sessions.len() implies (
    #[trigger] record.device_sessions[k]).device_id is Some by {
        assert(device_migrated(
            record.synapse_devices,
            record.device_sessions,
            state.server_name,
            state.localparts,
            state.sessions,
            state.admins,
            k,
        ));
    }
    lemma_count_all_deviceless(record.deviceless_sessions);
    lemma_count_skips_devices(record.deviceless_sessions, record.device_sessions);
}

/// The session of an access token was written, provided that the token
/// belongs to no device or that its device was read.
pub proof fn law_access_token_session(state: MigrationView, i: int)
    requires
        state.inv(),
        0 <= i < state.record.access_tokens.len(),
        state.record.synapse_access_tokens[i].device_id is Some ==> device_was_read(
            state,
            resolve_user(
                state.record.synapse_access_tokens[i].user_id,
                state.server_name,
                state.localparts,
                "access_tokens"@,
            )->Ok_0,
            state.record.synapse_access_tokens[i].device_id->0,
        ),
    ensures
        state.record.has_session(state.record.access_tokens[i].session_id),
{
    let record = state.record;
    let token = record.synapse_access_tokens[i];
    let row = record.access_tokens[i];
    assert(access_token_migrated(
        record.synapse_access_tokens,
        record.access_tokens,
        record.deviceless_sessions,
        state.server_name,
        state.localparts,
        state.sessions,
        i,
    ));
    let user_id = resolve_user(token.user_id, state.server_name, state.localparts, "access_tokens"@)->Ok_0;
    match token.device_id {
        Some(device_id) => {
            lemma_device_session_written(state, user_id, device_id);
        },
        None => {
            let k = choose|k: int|
                0 <= k < record.deviceless_sessions.len()
                    && #[trigger] record.deviceless_sessions[k].session_id == row.session_id
                    && record.deviceless_sessions[k].user_id == user_id;
            assert(record.compat_sessions()[k].session_id == row.session_id);
        },
    }
}

/// The session named for a device that was read was written.
proof fn lemma_device_session_written(state: MigrationView, user_id: u128, device_id: Seq<char>)
    requires
        state.inv(),
        device_was_read(state, user_id, device_id),
    ensures
        state.sessions.contains_key((user_id, device_id)),
        state.record.has_session(state.sessions[(user_id, device_id)]),
{
    let record = state.record;
    let d = choose|d: int|
        0 <= d < record.synapse_devices.len() && #[trigger] device_key(state, d) == (
            user_id,
            device_id,
        );
    assert(device_migrated(
        record.synapse_devices,
        record.device_sessions,
        state.server_name,
        state.localparts,
        state.sessions,
        state.admins,
        d,
    ));
    let place = record.deviceless_sessions.len() + d;
    assert(record.compat_sessions()[place] == record.device_sessions[d]);
    assert(record.compat_sessions()[place].session_id == state.sessions[(user_id, device_id)]);
}

/// The session that the two tokens of a pair share was written, provided
/// that the pair's device was read.
pub proof fn law_token_pair_session(state: MigrationView, i: int)
    requires
        state.inv(),
        0 <= i < state.record.refresh_tokens.len(),
        device_was_read(
            state,
            resolve_user(
                state.record.synapse_token_pairs[i].user_id,
                state.server_name,
                state.localparts,
                "refresh_tokens"@,
            )->Ok_0,
            state.record.synapse_token_pairs[i].device_id,
        ),
    ensures
        state.record.refresh_tokens[i].session_id == state.record.pair_access_tokens[i].session_id,
        state.record.has_session(state.record.refresh_tokens[i].session_id),
{
    let record = state.record;
    let pair = record.synapse_token_pairs[i];
    assert(token_pair_migrated(
        record.synapse_token_pairs,
        record.pair_access_tokens,
        record.refresh_tokens,
        state.server_name,
        state.localparts,
        state.sessions,
        i,
    ));
    let user_id = resolve_user(pair.user_id, state.server_name, state.localparts, "refresh_tokens"@)->Ok_0;
    lemma_device_session_written(state, user_id, pair.device_id);
}

/// The access token that a refresh token renews was written, in the session
/// of the refresh token.
pub proof fn law_refresh_token_access_token(state: MigrationView, i: int)
    requires
        state.inv(),
        0 <= i < state.record.refresh_tokens.len(),
    ensures
        ({
            let tokens = state.record.compat_access_tokens();
            let place = state.record.access_tokens.len() + i;
            &&& place < tokens.len()
            &&& tokens[place].token_id == state.record.refresh_tokens[i].access_token_id
            &&& tokens[place].session_id == state.record.refresh_tokens[i].session_id
        }),
{
    let record = state.record;
    assert(token_pair_migrated(
        record.synapse_token_pairs,
        record.pair_access_tokens,
        record.refresh_tokens,
        state.server_name,
        state.localparts,
        state.sessions,
        i,
    ));
}

/// The session of a device of an administrator is marked as one of an
/// administrator.
pub proof fn law_admin_propagation(state: MigrationView, u: int, d: int)
    requires
        state.inv(),
        0 <= u < state.record.users.len(),
        state.record.synapse_users[u].admin,
        0 <= d < state.record.device_sessions.len(),
        state.record.device_sessions[d].user_id == state.record.users[u].user_id,
    ensures
        state.record.device_sessions[d].is_synapse_admin,
{
    let record = state.record;
    assert(device_migrated(
        record.synapse_devices,
        record.device_sessions,
        state.server_name,
        state.localparts,
        state.sessions,
        state.admins,
        d,
    ));
    assert(record.admin_ids().contains(record.users[u].user_id));
}

/// The session of a device is as old as the first access token that was
/// read for the device: it goes by the name that the token gave it, and was
/// created when the token was.
pub proof fn law_session_as_old_as_first_access_token(state: MigrationView, d: int, i: int)
    requires
        state.inv(),
        0 <= d < state.record.synapse_devices.len(),
        0 <= i < state.record.synapse_access_tokens.len(),
        is_first_access_token(
            state.record.synapse_access_tokens,
            state.server_name,
            state.localparts,
            i,
        ),
        access_token_key(state.record.synapse_access_tokens, state.server_name, state.localparts, i)
            == Some(device_key(state, d)),
    ensures
        state.record.device_sessions[d].session_id == state.record.access_tokens[i].session_id,
        state.record.device_sessions[d].created_at@ == state.record.access_tokens[i].created_at@,
{
    let record = state.record;
    assert(device_migrated(
        record.synapse_devices,
        record.device_sessions,
        state.server_name,
        state.localparts,
        state.sessions,
        state.admins,
        d,
    ));
    assert(access_token_migrated(
        record.synapse_access_tokens,
        record.access_tokens,
        record.deviceless_sessions,
        state.server_name,
        state.localparts,
        state.sessions,
        i,
    ));
}

/// The session of a device that no access token without a refresh token
/// was read for is as old as the first token pair that was read for the
/// device.
pub proof fn law_session_as_old_as_first_token_pair(state: MigrationView, d: int, i: int)
    requires
        state.inv(),
        0 <= d < state.record.synapse_devices.len(),
        0 <= i < state.record.synapse_token_pairs.len(),
        is_first_token_pair(
            state.record.synapse_access_tokens,
            state.record.synapse_token_pairs,
            state.server_name,
            state.localparts,
            i,
        ),
        token_pair_key(state.record.synapse_token_pairs, state.server_name, state.localparts, i)
            == device_key(state, d),
    ensures
        state.record.device_sessions[d].session_id == state.record.pair_access_tokens[i].session_id,
        state.record.device_sessions[d].created_at@
            == state.record.pair_access_tokens[i].created_at@,
{
    let record = state.record;
    assert(device_migrated(
        record.synapse_devices,
        record.device_sessions,
        state.server_name,
        state.localparts,
        state.sessions,
        state.admins,
        d,
    ));
    assert(token_pair_migrated(
        record.synapse_token_pairs,
        record.pair_access_tokens,
        record.refresh_tokens,
        state.server_name,
        state.localparts,
        state.sessions,
        i,
    ));
}

/// A user is locked from the moment it was created where the source user is
/// deactivated, and not locked where it is not.
pub proof fn law_deactivation(state: MigrationView, i: int)
    requires
        state.inv(),
        0 <= i < state.record.users.len(),
    ensures
        state.record.users[i].locked_at == (if state.record.synapse_users[i].deactivated {
            Some(state.record.users[i].created_at)
        } else {
            None
        }),
{
}

/// A link was written only for an external ID whose auth provider has an
/// upstream provider, and it points to that provider.
pub proof fn law_links_have_providers(state: MigrationView, i: int)
    requires
        state.inv(),
        0 <= i < state.record.upstream_oauth_links.len(),
    ensures
        state.providers.contains_key(state.record.synapse_external_ids[i].auth_provider),
        state.record.upstream_oauth_links[i].upstream_provider_id
            == state.providers[state.record.synapse_external_ids[i].auth_provider],
{
    let record = state.record;
    assert(link_migrated(
        record.synapse_external_ids,
        record.upstream_oauth_links,
        state.server_name,
        state.localparts,
        state.providers,
        i,
    ));
}

} // verus!
