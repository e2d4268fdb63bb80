use rand::rngs::StdRng;
use rand::SeedableRng;
use syn2mas::{
    timestamp_of, transform_user, Error, IpAddress, MasNewCompatSession, MasNewThreepid,
    MasNewUnsupportedThreepid, Migration, ProviderMapping, Stage, SynapseAccessToken,
    SynapseDevice, SynapseExternalId, SynapseRefreshableTokenPair, SynapseThreepid,
    SynapseUser, Timestamp,
};

const SERVER: &str = "example.org";
const NOW: i64 = 1_750_000_000_000;

fn ts(millis: i64) -> Timestamp {
    Timestamp::from_millis(millis).unwrap()
}

fn rng() -> StdRng {
    StdRng::seed_from_u64(42)
}

fn user(name: &str, created: i64) -> SynapseUser {
    SynapseUser {
        name: name.to_owned(),
        password_hash: None,
        admin: false,
        deactivated: false,
        creation_ts: ts(created),
    }
}

fn access_token(user_id: &str, device_id: Option<&str>, token: &str, last_validated: Option<i64>) -> SynapseAccessToken {
    SynapseAccessToken {
        user_id: user_id.to_owned(),
        device_id: device_id.map(|d| d.to_owned()),
        token: token.to_owned(),
        valid_until_ms: None,
        last_validated: last_validated.map(ts),
    }
}

fn device(user_id: &str, device_id: &str) -> SynapseDevice {
    SynapseDevice {
        user_id: user_id.to_owned(),
        device_id: device_id.to_owned(),
        display_name: None,
        last_seen: None,
        ip: None,
        user_agent: None,
    }
}

fn pair(user_id: &str, device_id: &str, last_validated: Option<i64>) -> SynapseRefreshableTokenPair {
    SynapseRefreshableTokenPair {
        user_id: user_id.to_owned(),
        device_id: device_id.to_owned(),
        access_token: "syt_access".to_owned(),
        refresh_token: "syr_refresh".to_owned(),
        valid_until_ms: Some(1_700_000_900_000),
        last_validated: last_validated.map(ts),
    }
}

/// A migration of `example.org` that has read `users` and stands at `stage`.
fn migration_at(stage: Stage, users: &[SynapseUser], providers: ProviderMapping, rng: &mut StdRng) -> (Migration, Vec<u128>) {
    let mut migration = Migration::new(SERVER.to_owned(), providers, users.len(), 0);
    let mut ids = Vec::new();
    for user in users {
        let (row, _) = migration.migrate_user(user, rng).unwrap();
        ids.push(row.user_id);
    }
    while migration.stage() != stage {
        migration.advance();
    }
    (migration, ids)
}

#[test]
fn stages_follow_the_dependencies_between_the_tables() {
    let mut migration = Migration::new(SERVER.to_owned(), ProviderMapping::new(), 0, 0);
    let mut seen = vec![migration.stage()];
    for _ in 0..7 {
        migration.advance();
        seen.push(migration.stage());
    }
    assert_eq!(
        seen,
        vec![
            Stage::Users,
            Stage::Threepids,
            Stage::ExternalIds,
            Stage::UnrefreshableAccessTokens,
            Stage::RefreshableTokenPairs,
            Stage::Devices,
            Stage::Done,
            Stage::Done,
        ]
    );
}

#[test]
fn single_user_no_password_no_devices() {
    let mut rng = rng();
    let mut migration = Migration::new(SERVER.to_owned(), ProviderMapping::new(), 1, 0);
    let source = user("@alice:example.org", 1_700_000_000_000);
    let (row, password) = migration.migrate_user(&source, &mut rng).unwrap();
    assert_eq!(row.username, "alice");
    assert_eq!(row.created_at.millis(), 1_700_000_000_000);
    assert_eq!(row.locked_at, None);
    assert!(!row.can_request_admin);
    assert_eq!(password, None);
    assert_eq!(row.user_id >> 80, 1_700_000_000_000);
    assert_eq!(migration.user_id("alice"), Some(row.user_id));
    assert!(!migration.is_synapse_admin(row.user_id));
    assert_eq!(migration.session_id(row.user_id, "DEV1"), None);
}

#[test]
fn admin_user_with_one_device_and_one_access_token() {
    let mut rng = rng();
    let mut admin = user("@alice:example.org", 1_700_000_000_000);
    admin.admin = true;
    let (mut migration, ids) = migration_at(Stage::UnrefreshableAccessTokens, &[admin], ProviderMapping::new(), &mut rng);
    let (token, session) = migration
        .migrate_unrefreshable_access_token(
            access_token("@alice:example.org", Some("DEV1"), "syt_token", Some(1_700_000_001_000)),
            ts(NOW),
            &mut rng,
        )
        .unwrap();
    assert_eq!(session, None);
    assert_eq!(token.access_token, "syt_token");
    assert_eq!(token.created_at.millis(), 1_700_000_001_000);
    assert_eq!(token.token_id >> 80, 1_700_000_001_000);
    assert_eq!(token.expires_at, None);
    migration.advance();
    migration.advance();
    let mut source = device("@alice:example.org", "DEV1");
    source.last_seen = Some(1_700_000_002_000);
    let (session, ignored_ip) = migration.migrate_device(source, None, ts(NOW), &mut rng).unwrap();
    assert_eq!(ignored_ip, None);
    assert!(session.is_synapse_admin);
    assert_eq!(session.device_id, Some("DEV1".to_owned()));
    assert_eq!(session.created_at.millis(), 1_700_000_001_000);
    assert_eq!(session.last_active_at, Some(1_700_000_002_000));
    assert_eq!(session.user_id, ids[0]);
    assert_eq!(session.session_id, token.session_id);
    assert_eq!(session.last_active_ip, None);
}

#[test]
fn deviceless_access_token() {
    let mut rng = rng();
    let (mut migration, ids) = migration_at(
        Stage::UnrefreshableAccessTokens,
        &[user("@alice:example.org", 1_700_000_000_000)],
        ProviderMapping::new(),
        &mut rng,
    );
    let (token, session) = migration
        .migrate_unrefreshable_access_token(access_token("@alice:example.org", None, "syt_old", None), ts(NOW), &mut rng)
        .unwrap();
    let session = session.unwrap();
    assert_eq!(
        session,
        MasNewCompatSession {
            session_id: token.session_id,
            user_id: ids[0],
            device_id: None,
            human_name: None,
            created_at: ts(NOW),
            is_synapse_admin: false,
            last_active_at: None,
            last_active_ip: None,
            user_agent: None,
        }
    );
    assert_eq!(session.session_id >> 80, NOW as u128);
    assert_eq!(token.created_at, ts(NOW));
    assert_eq!(token.token_id >> 80, NOW as u128);
    assert_ne!(token.token_id, token.session_id);
    assert_eq!(token.access_token, "syt_old");
}

#[test]
fn refreshable_pair_then_device_row() {
    let mut rng = rng();
    let (mut migration, ids) = migration_at(
        Stage::RefreshableTokenPairs,
        &[user("@alice:example.org", 1_700_000_000_000)],
        ProviderMapping::new(),
        &mut rng,
    );
    let (access, refresh) = migration
        .migrate_refreshable_token_pair(pair("@alice:example.org", "DEV2", Some(1_700_000_003_000)), ts(NOW), &mut rng)
        .unwrap();
    migration.advance();
    let (session, _) = migration.migrate_device(device("@alice:example.org", "DEV2"), None, ts(NOW), &mut rng).unwrap();
    assert_eq!(access.session_id, session.session_id);
    assert_eq!(refresh.session_id, session.session_id);
    assert_eq!(session.session_id >> 80, 1_700_000_003_000);
    assert_eq!(session.created_at.millis(), 1_700_000_003_000);
    assert_eq!(migration.session_id(ids[0], "DEV2"), Some(session.session_id));
    assert_eq!(refresh.access_token_id, access.token_id);
    assert_eq!(access.access_token, "syt_access");
    assert_eq!(refresh.refresh_token, "syr_refresh");
    assert_eq!(access.expires_at, Some(1_700_000_900_000));
    assert_eq!(access.created_at.millis(), 1_700_000_003_000);
    assert_eq!(refresh.created_at.millis(), 1_700_000_003_000);
    assert_eq!(access.token_id >> 80, 1_700_000_003_000);
    assert_eq!(refresh.refresh_token_id >> 80, 1_700_000_003_000);
    assert_ne!(access.token_id, refresh.refresh_token_id);
}

#[test]
fn email_threepid() {
    let mut rng = rng();
    let (mut migration, ids) = migration_at(
        Stage::Threepids,
        &[user("@alice:example.org", 1_700_000_000_000)],
        ProviderMapping::new(),
        &mut rng,
    );
    let row = migration
        .migrate_threepid(
            SynapseThreepid {
                user_id: "@alice:example.org".to_owned(),
                medium: "email".to_owned(),
                address: "alice@x".to_owned(),
                added_at: ts(1_700_000_004_000),
            },
            &mut rng,
        )
        .unwrap();
    match row {
        MasNewThreepid::Email(email) => {
            assert_eq!(email.user_id, ids[0]);
            assert_eq!(email.email, "alice@x");
            assert_eq!(email.created_at.millis(), 1_700_000_004_000);
            assert_eq!(email.user_email_id >> 80, 1_700_000_004_000);
        }
        MasNewThreepid::Unsupported(_) => panic!("an email address is supported"),
    }
}

#[test]
fn threepid_of_another_medium_is_kept_verbatim() {
    let mut rng = rng();
    let (mut migration, ids) = migration_at(
        Stage::Threepids,
        &[user("@alice:example.org", 1_700_000_000_000)],
        ProviderMapping::new(),
        &mut rng,
    );
    for medium in ["msisdn", "Email", "email ", "", "EMAIL"] {
        let row = migration
            .migrate_threepid(
                SynapseThreepid {
                    user_id: "@alice:example.org".to_owned(),
                    medium: medium.to_owned(),
                    address: "441234567890".to_owned(),
                    added_at: ts(1_700_000_004_000),
                },
                &mut rng,
            )
            .unwrap();
        assert_eq!(
            row,
            MasNewThreepid::Unsupported(MasNewUnsupportedThreepid {
                user_id: ids[0],
                medium: medium.to_owned(),
                address: "441234567890".to_owned(),
                created_at: ts(1_700_000_004_000),
            })
        );
    }
}

#[test]
fn external_id_with_unmapped_provider() {
    let mut rng = rng();
    let (mut migration, _) = migration_at(
        Stage::ExternalIds,
        &[user("@alice:example.org", 1_700_000_000_000)],
        ProviderMapping::new(),
        &mut rng,
    );
    let result = migration.migrate_external_id(
        SynapseExternalId {
            user_id: "@alice:example.org".to_owned(),
            auth_provider: "oidc-Some Provider".to_owned(),
            external_id: "subject-1".to_owned(),
        },
        &mut rng,
    );
    assert_eq!(
        result,
        Err(Error::MissingAuthProviderMapping {
            synapse_id: "oidc-Some Provider".to_owned(),
            user: "@alice:example.org".to_owned(),
        })
    );
}

#[test]
fn missing_auth_provider_is_named_exactly() {
    let mut rng = rng();
    let mut providers = ProviderMapping::new();
    providers.insert("oidc-github".to_owned(), 77);
    let (mut migration, _) = migration_at(
        Stage::ExternalIds,
        &[user("@alice:example.org", 1_700_000_000_000)],
        providers,
        &mut rng,
    );
    for provider in ["oidc-GitHub", "oidc-github ", "", "saml"] {
        let result = migration.migrate_external_id(
            SynapseExternalId {
                user_id: "@alice:example.org".to_owned(),
                auth_provider: provider.to_owned(),
                external_id: "subject-1".to_owned(),
            },
            &mut rng,
        );
        assert_eq!(
            result,
            Err(Error::MissingAuthProviderMapping {
                synapse_id: provider.to_owned(),
                user: "@alice:example.org".to_owned(),
            })
        );
    }
}

#[test]
fn external_id_becomes_a_link_as_old_as_its_user() {
    let mut rng = rng();
    let mut providers = ProviderMapping::new();
    providers.insert("oidc-github".to_owned(), 0x0123_4567_89AB_CDEF_0123_4567_89AB_CDEF);
    assert_eq!(providers.get("oidc-github"), Some(0x0123_4567_89AB_CDEF_0123_4567_89AB_CDEF));
    assert_eq!(providers.get("oidc-gitlab"), None);
    let (mut migration, ids) = migration_at(
        Stage::ExternalIds,
        &[user("@alice:example.org", 1_700_000_000_000)],
        providers,
        &mut rng,
    );
    let link = migration
        .migrate_external_id(
            SynapseExternalId {
                user_id: "@alice:example.org".to_owned(),
                auth_provider: "oidc-github".to_owned(),
                external_id: "subject-1".to_owned(),
            },
            &mut rng,
        )
        .unwrap();
    assert_eq!(link.user_id, ids[0]);
    assert_eq!(link.upstream_provider_id, 0x0123_4567_89AB_CDEF_0123_4567_89AB_CDEF);
    assert_eq!(link.subject, "subject-1");
    assert_eq!(link.created_at.millis(), 1_700_000_000_000);
    assert_eq!(link.link_id >> 80, 1_700_000_000_000);
    assert_ne!(link.link_id, link.user_id);
}

#[test]
fn later_provider_mapping_replaces_the_earlier() {
    let mut providers = ProviderMapping::new();
    providers.insert("oidc".to_owned(), 1);
    providers.insert("oidc".to_owned(), 2);
    assert_eq!(providers.get("oidc"), Some(2));
}

#[test]
fn unparseable_ip_is_ignored() {
    let mut rng = rng();
    let (mut migration, _) = migration_at(
        Stage::Devices,
        &[user("@alice:example.org", 1_700_000_000_000)],
        ProviderMapping::new(),
        &mut rng,
    );
    let mut source = device("@alice:example.org", "DEV1");
    source.ip = Some("not-an-ip".to_owned());
    let (session, ignored_ip) = migration.migrate_device(source, None, ts(NOW), &mut rng).unwrap();
    assert_eq!(session.last_active_ip, None);
    assert_eq!(ignored_ip, Some("not-an-ip".to_owned()));
    assert_eq!(session.device_id, Some("DEV1".to_owned()));
}

#[test]
fn parsed_ip_is_kept() {
    let mut rng = rng();
    let (mut migration, _) = migration_at(
        Stage::Devices,
        &[user("@alice:example.org", 1_700_000_000_000)],
        ProviderMapping::new(),
        &mut rng,
    );
    let mut source = device("@alice:example.org", "DEV1");
    source.ip = Some("192.0.2.1".to_owned());
    source.display_name = Some("Alice's phone".to_owned());
    source.user_agent = Some("Element/1.0".to_owned());
    let (session, ignored_ip) = migration
        .migrate_device(source, Some(IpAddress::V4(0xC000_0201)), ts(NOW), &mut rng)
        .unwrap();
    assert_eq!(session.last_active_ip, Some(IpAddress::V4(0xC000_0201)));
    assert_eq!(ignored_ip, None);
    assert_eq!(session.human_name, Some("Alice's phone".to_owned()));
    assert_eq!(session.user_agent, Some("Element/1.0".to_owned()));
    let mut source = device("@alice:example.org", "DEV6");
    source.ip = Some("2001:db8::1".to_owned());
    let (session, _) = migration
        .migrate_device(source, Some(IpAddress::V6(0x2001_0db8_0000_0000_0000_0000_0000_0001)), ts(NOW), &mut rng)
        .unwrap();
    assert_eq!(session.last_active_ip, Some(IpAddress::V6(0x2001_0db8_0000_0000_0000_0000_0000_0001)));
}

#[test]
fn device_without_an_address_has_none() {
    let mut rng = rng();
    let (mut migration, _) = migration_at(
        Stage::Devices,
        &[user("@alice:example.org", 1_700_000_000_000)],
        ProviderMapping::new(),
        &mut rng,
    );
    let (session, ignored_ip) = migration
        .migrate_device(device("@alice:example.org", "DEV1"), Some(IpAddress::V4(1)), ts(NOW), &mut rng)
        .unwrap();
    assert_eq!(session.last_active_ip, None);
    assert_eq!(ignored_ip, None);
}

#[test]
fn device_without_a_token_is_dated_by_the_clock() {
    let mut rng = rng();
    let (mut migration, ids) = migration_at(
        Stage::Devices,
        &[user("@alice:example.org", 1_700_000_000_000)],
        ProviderMapping::new(),
        &mut rng,
    );
    let (session, _) = migration.migrate_device(device("@alice:example.org", "DEV9"), None, ts(NOW), &mut rng).unwrap();
    assert_eq!(session.created_at, ts(NOW));
    assert_eq!(session.session_id >> 80, NOW as u128);
    assert_eq!(timestamp_of(session.session_id), ts(NOW));
    assert!(!session.is_synapse_admin);
    assert_eq!(migration.session_id(ids[0], "DEV9"), Some(session.session_id));
}

#[test]
fn password_is_written_beside_its_user() {
    let mut rng = rng();
    let mut source = user("@alice:example.org", 1_700_000_000_000);
    source.password_hash = Some("$2b$12$abcdefghijklmnopqrstuv".to_owned());
    let (row, password) = transform_user(&source, SERVER, &mut rng).unwrap();
    let password = password.unwrap();
    assert_eq!(password.user_id, row.user_id);
    assert_eq!(password.hashed_password, "$2b$12$abcdefghijklmnopqrstuv");
    assert_eq!(password.created_at, row.created_at);
    assert_eq!(password.user_password_id >> 80, 1_700_000_000_000);
    assert_ne!(password.user_password_id, row.user_id);
}

#[test]
fn password_coupling() {
    let mut rng = rng();
    let mut migration = Migration::new(SERVER.to_owned(), ProviderMapping::new(), 4, 0);
    let mut users = Vec::new();
    let mut passwords = Vec::new();
    for (name, hash) in [("@a:example.org", Some("h1")), ("@b:example.org", None), ("@c:example.org", Some("h3")), ("@d:example.org", None)] {
        let mut source = user(name, 1_700_000_000_000);
        source.password_hash = hash.map(|h| h.to_owned());
        let (row, password) = migration.migrate_user(&source, &mut rng).unwrap();
        assert_eq!(password.is_some(), hash.is_some());
        users.push(row);
        passwords.extend(password);
    }
    assert_eq!(users.len(), 4);
    assert_eq!(passwords.len(), 2);
    for password in &passwords {
        assert!(users.iter().any(|row| row.user_id == password.user_id));
    }
    assert_eq!(passwords[0].user_id, users[0].user_id);
    assert_eq!(passwords[1].user_id, users[2].user_id);
}

#[test]
fn deactivated_user_is_locked_from_the_start() {
    let mut rng = rng();
    let mut source = user("@gone:example.org", 1_600_000_000_000);
    source.deactivated = true;
    let (row, _) = transform_user(&source, SERVER, &mut rng).unwrap();
    assert_eq!(row.locked_at, Some(row.created_at));
    assert_eq!(row.locked_at, Some(ts(1_600_000_000_000)));
    let (row, _) = transform_user(&user("@here:example.org", 1_600_000_000_000), SERVER, &mut rng).unwrap();
    assert_eq!(row.locked_at, None);
}

#[test]
fn admin_propagation() {
    let mut rng = rng();
    let mut admin = user("@root:example.org", 1_700_000_000_000);
    admin.admin = true;
    let plain = user("@alice:example.org", 1_700_000_000_000);
    let (mut migration, ids) = migration_at(Stage::Devices, &[admin, plain], ProviderMapping::new(), &mut rng);
    assert!(migration.is_synapse_admin(ids[0]));
    assert!(!migration.is_synapse_admin(ids[1]));
    for device_id in ["A", "B", "C"] {
        let (session, _) = migration.migrate_device(device("@root:example.org", device_id), None, ts(NOW), &mut rng).unwrap();
        assert!(session.is_synapse_admin);
        assert_eq!(session.user_id, ids[0]);
        let (session, _) = migration.migrate_device(device("@alice:example.org", device_id), None, ts(NOW), &mut rng).unwrap();
        assert!(!session.is_synapse_admin);
        assert_eq!(session.user_id, ids[1]);
    }
}

#[test]
fn admin_flag_is_carried_to_the_user() {
    let mut rng = rng();
    let mut admin = user("@root:example.org", 1_700_000_000_000);
    admin.admin = true;
    let (row, _) = transform_user(&admin, SERVER, &mut rng).unwrap();
    assert!(row.can_request_admin);
}

#[test]
fn second_token_of_a_device_joins_the_first_session() {
    let mut rng = rng();
    let (mut migration, ids) = migration_at(
        Stage::UnrefreshableAccessTokens,
        &[user("@alice:example.org", 1_700_000_000_000)],
        ProviderMapping::new(),
        &mut rng,
    );
    let (first, _) = migration
        .migrate_unrefreshable_access_token(access_token("@alice:example.org", Some("DEV1"), "t1", Some(1_700_000_050_000)), ts(NOW), &mut rng)
        .unwrap();
    let (second, _) = migration
        .migrate_unrefreshable_access_token(access_token("@alice:example.org", Some("DEV1"), "t2", Some(1_700_000_010_000)), ts(NOW), &mut rng)
        .unwrap();
    assert_eq!(first.session_id, second.session_id);
    assert_eq!(first.session_id >> 80, 1_700_000_050_000);
    assert_eq!(second.created_at.millis(), 1_700_000_010_000);
    assert_eq!(second.token_id >> 80, 1_700_000_010_000);
    migration.advance();
    let (access, refresh) = migration
        .migrate_refreshable_token_pair(pair("@alice:example.org", "DEV1", None), ts(NOW), &mut rng)
        .unwrap();
    assert_eq!(access.session_id, first.session_id);
    assert_eq!(refresh.session_id, first.session_id);
    assert_eq!(access.created_at, ts(NOW));
    migration.advance();
    let (session, _) = migration.migrate_device(device("@alice:example.org", "DEV1"), None, ts(NOW), &mut rng).unwrap();
    assert_eq!(session.session_id, first.session_id);
    assert_eq!(session.created_at.millis(), 1_700_000_050_000);
    assert_eq!(session.user_id, ids[0]);
}

#[test]
fn one_session_per_device() {
    let mut rng = rng();
    let users = [user("@alice:example.org", 1_700_000_000_000), user("@bob:example.org", 1_700_000_000_000)];
    let (mut migration, _) = migration_at(Stage::UnrefreshableAccessTokens, &users, ProviderMapping::new(), &mut rng);
    let mut token_sessions = Vec::new();
    for (owner, device_id) in [("@alice:example.org", "D1"), ("@bob:example.org", "D1"), ("@alice:example.org", "D2"), ("@alice:example.org", "D1")] {
        let (token, session) = migration
            .migrate_unrefreshable_access_token(access_token(owner, Some(device_id), "t", Some(1_700_000_001_000)), ts(NOW), &mut rng)
            .unwrap();
        assert_eq!(session, None);
        token_sessions.push(token.session_id);
    }
    migration.advance();
    migration.advance();
    let mut sessions = Vec::new();
    for (owner, device_id) in [("@alice:example.org", "D1"), ("@alice:example.org", "D2"), ("@bob:example.org", "D1"), ("@bob:example.org", "D3")] {
        let (session, _) = migration.migrate_device(device(owner, device_id), None, ts(NOW), &mut rng).unwrap();
        sessions.push(session);
    }
    assert_eq!(sessions.len(), 4);
    for (i, one) in sessions.iter().enumerate() {
        for (j, other) in sessions.iter().enumerate() {
            if i != j {
                assert_ne!(one.session_id, other.session_id);
                assert!(one.user_id != other.user_id || one.device_id != other.device_id);
            }
        }
    }
    for token_session in token_sessions {
        assert_eq!(sessions.iter().filter(|s| s.session_id == token_session).count(), 1);
    }
    assert_eq!(token_sessions_of(&sessions, "D3"), 1);
}

fn token_sessions_of(sessions: &[MasNewCompatSession], device_id: &str) -> usize {
    sessions.iter().filter(|s| s.device_id.as_deref() == Some(device_id)).count()
}

#[test]
fn deviceless_sessions_match_deviceless_tokens() {
    let mut rng = rng();
    let (mut migration, _) = migration_at(
        Stage::UnrefreshableAccessTokens,
        &[user("@alice:example.org", 1_700_000_000_000)],
        ProviderMapping::new(),
        &mut rng,
    );
    let mut sessions = Vec::new();
    let mut tokens = Vec::new();
    for device_id in [None, Some("D1"), None, None, Some("D1"), Some("D2")] {
        let (token, session) = migration
            .migrate_unrefreshable_access_token(access_token("@alice:example.org", device_id, "t", Some(1_700_000_001_000)), ts(NOW), &mut rng)
            .unwrap();
        assert_eq!(session.is_some(), device_id.is_none());
        if let Some(session) = &session {
            assert_eq!(session.session_id, token.session_id);
        }
        sessions.extend(session);
        tokens.push(token);
    }
    assert_eq!(sessions.len(), 3);
    assert!(sessions.iter().all(|s| s.device_id.is_none()));
    assert_ne!(sessions[0].session_id, sessions[1].session_id);
    assert_ne!(sessions[1].session_id, sessions[2].session_id);
    assert_eq!(tokens.len(), 6);
}

#[test]
fn token_expiry_is_carried_over() {
    let mut rng = rng();
    let (mut migration, _) = migration_at(
        Stage::UnrefreshableAccessTokens,
        &[user("@alice:example.org", 1_700_000_000_000)],
        ProviderMapping::new(),
        &mut rng,
    );
    let mut token = access_token("@alice:example.org", Some("D1"), "t", Some(1_700_000_001_000));
    token.valid_until_ms = Some(1_800_000_000_000);
    let (row, _) = migration.migrate_unrefreshable_access_token(token, ts(NOW), &mut rng).unwrap();
    assert_eq!(row.expires_at, Some(1_800_000_000_000));
}

#[test]
fn row_of_an_unknown_user_is_refused_with_its_table() {
    let mut rng = rng();
    let (mut migration, _) = migration_at(
        Stage::Threepids,
        &[user("@alice:example.org", 1_700_000_000_000)],
        ProviderMapping::new(),
        &mut rng,
    );
    let missing = |table: &str| Error::MissingUserFromDependentTable {
        table: table.to_owned(),
        user: "@mallory:example.org".to_owned(),
    };
    let result = migration.migrate_threepid(
        SynapseThreepid {
            user_id: "@mallory:example.org".to_owned(),
            medium: "email".to_owned(),
            address: "m@x".to_owned(),
            added_at: ts(1_700_000_004_000),
        },
        &mut rng,
    );
    assert_eq!(result, Err(missing("user_threepids")));
    migration.advance();
    let result = migration.migrate_external_id(
        SynapseExternalId {
            user_id: "@mallory:example.org".to_owned(),
            auth_provider: "oidc".to_owned(),
            external_id: "s".to_owned(),
        },
        &mut rng,
    );
    assert_eq!(result, Err(missing("user_external_ids")));
    migration.advance();
    let result = migration.migrate_unrefreshable_access_token(
        access_token("@mallory:example.org", Some("D"), "t", None),
        ts(NOW),
        &mut rng,
    );
    assert_eq!(result, Err(missing("access_tokens")));
    migration.advance();
    let result = migration.migrate_refreshable_token_pair(pair("@mallory:example.org", "D", None), ts(NOW), &mut rng);
    assert_eq!(result, Err(missing("refresh_tokens")));
    migration.advance();
    let result = migration.migrate_device(device("@mallory:example.org", "D"), None, ts(NOW), &mut rng);
    assert_eq!(result, Err(missing("devices")));
    assert_eq!(migration.user_id("mallory"), None);
}

#[test]
fn row_with_an_invalid_user_id_is_refused() {
    let mut rng = rng();
    let mut migration = Migration::new(SERVER.to_owned(), ProviderMapping::new(), 0, 0);
    let invalid = |user: &str| Error::InvalidUserId { user: user.to_owned() };
    assert_eq!(
        migration.migrate_user(&user("@alice:example.com", 1_700_000_000_000), &mut rng),
        Err(invalid("@alice:example.com"))
    );
    assert_eq!(migration.user_id("alice"), None);
    assert_eq!(
        transform_user(&user("alice:example.org", 1_700_000_000_000), SERVER, &mut rng),
        Err(invalid("alice:example.org"))
    );
    migration.migrate_user(&user("@alice:example.org", 1_700_000_000_000), &mut rng).unwrap();
    migration.advance();
    let result = migration.migrate_threepid(
        SynapseThreepid {
            user_id: "@alice".to_owned(),
            medium: "email".to_owned(),
            address: "a@x".to_owned(),
            added_at: ts(1_700_000_004_000),
        },
        &mut rng,
    );
    assert_eq!(result, Err(invalid("@alice")));
    migration.advance();
    migration.advance();
    migration.advance();
    migration.advance();
    let result = migration.migrate_device(device("@alice:other.example", "D"), None, ts(NOW), &mut rng);
    assert_eq!(result, Err(invalid("@alice:other.example")));
}

#[test]
fn failed_row_leaves_the_indexes_alone() {
    let mut rng = rng();
    let (mut migration, ids) = migration_at(
        Stage::UnrefreshableAccessTokens,
        &[user("@alice:example.org", 1_700_000_000_000)],
        ProviderMapping::new(),
        &mut rng,
    );
    let result = migration.migrate_unrefreshable_access_token(
        access_token("@bob:example.org", Some("D1"), "t", None),
        ts(NOW),
        &mut rng,
    );
    assert!(result.is_err());
    assert_eq!(migration.session_id(ids[0], "D1"), None);
    assert_eq!(migration.user_id("bob"), None);
    assert_eq!(migration.stage(), Stage::UnrefreshableAccessTokens);
}

#[test]
fn user_read_twice_is_found_by_its_later_id() {
    let mut rng = rng();
    let mut migration = Migration::new(SERVER.to_owned(), ProviderMapping::new(), 2, 0);
    let (first, _) = migration.migrate_user(&user("@alice:example.org", 1_700_000_000_000), &mut rng).unwrap();
    let (second, _) = migration.migrate_user(&user("@alice:example.org", 1_700_000_000_500), &mut rng).unwrap();
    assert_ne!(first.user_id, second.user_id);
    assert_eq!(migration.user_id("alice"), Some(second.user_id));
}
