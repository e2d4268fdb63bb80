use rand::rngs::StdRng;
use rand::SeedableRng;
use syn2mas::{
    Error, IpAddress, Pipeline, ProviderMapping, Stage, SynapseAccessToken, SynapseDevice,
    SynapseExternalId, SynapseRefreshableTokenPair, SynapseThreepid, SynapseUser, Timestamp,
    WRITE_BUFFER_BATCH_SIZE,
};

const CLOCK: i64 = 1_750_000_000_000;

fn at(millis: i64) -> Timestamp {
    Timestamp::from_millis(millis).unwrap()
}

fn source_user(localpart: &str, password_hash: Option<&str>) -> SynapseUser {
    SynapseUser {
        name: format!("@{}:example.org", localpart),
        password_hash: password_hash.map(|h| h.to_owned()),
        admin: false,
        deactivated: false,
        creation_ts: at(1_700_000_000_000),
    }
}

fn new_pipeline() -> Pipeline {
    let mut providers = ProviderMapping::new();
    providers.insert("oidc".to_owned(), 9);
    Pipeline::new("example.org".to_owned(), providers, 0, 0)
}

#[test]
fn rows_wait_in_the_pipeline_until_the_stage_ends() {
    let mut rng = StdRng::seed_from_u64(1);
    let mut pipeline = new_pipeline();
    assert_eq!(pipeline.migration().stage(), Stage::Users);
    for (name, hash) in [("a", Some("h")), ("b", None), ("c", Some("h"))] {
        let (users, passwords) = pipeline.migrate_user(&source_user(name, hash), &mut rng).unwrap();
        assert_eq!(users, None);
        assert_eq!(passwords, None);
    }
    let (users, passwords) = pipeline.finish_users();
    let users = users.unwrap();
    let passwords = passwords.unwrap();
    assert_eq!(users.iter().map(|u| u.username.as_str()).collect::<Vec<_>>(), vec!["a", "b", "c"]);
    assert_eq!(passwords.len(), 2);
    assert_eq!(passwords[0].user_id, users[0].user_id);
    assert_eq!(passwords[1].user_id, users[2].user_id);
    assert_eq!(pipeline.migration().stage(), Stage::Threepids);
    assert_eq!(pipeline.migration().user_id("b"), Some(users[1].user_id));
}

#[test]
fn full_batch_leaves_the_pipeline_at_once() {
    let mut rng = StdRng::seed_from_u64(2);
    let mut pipeline = new_pipeline();
    let mut handed_out = Vec::new();
    for i in 0..WRITE_BUFFER_BATCH_SIZE + 3 {
        let hash = if i % 2 == 0 { Some("h") } else { None };
        let (users, passwords) = pipeline
            .migrate_user(&source_user(&format!("user{}", i), hash), &mut rng)
            .unwrap();
        assert_eq!(passwords, None);
        if i + 1 == WRITE_BUFFER_BATCH_SIZE {
            let users = users.unwrap();
            assert_eq!(users.len(), WRITE_BUFFER_BATCH_SIZE);
            handed_out.extend(users);
        } else {
            assert_eq!(users, None);
        }
    }
    let (users, passwords) = pipeline.finish_users();
    handed_out.extend(users.unwrap());
    assert_eq!(handed_out.len(), WRITE_BUFFER_BATCH_SIZE + 3);
    for (i, user) in handed_out.iter().enumerate() {
        assert_eq!(user.username, format!("user{}", i));
    }
    assert_eq!(passwords.unwrap().len(), WRITE_BUFFER_BATCH_SIZE / 2 + 2);
}

#[test]
fn stage_without_rows_hands_out_nothing() {
    let mut pipeline = new_pipeline();
    assert_eq!(pipeline.finish_users(), (None, None));
    assert_eq!(pipeline.finish_threepids(), (None, None));
    assert_eq!(pipeline.finish_external_ids(), None);
    assert_eq!(pipeline.finish_unrefreshable_access_tokens(), (None, None));
    assert_eq!(pipeline.finish_refreshable_token_pairs(), (None, None));
    assert_eq!(pipeline.finish_devices(), None);
    assert_eq!(pipeline.migration().stage(), Stage::Done);
}

#[test]
fn whole_migration_through_the_pipeline() {
    let mut rng = StdRng::seed_from_u64(3);
    let mut pipeline = new_pipeline();
    let mut admin = source_user("alice", Some("hash"));
    admin.admin = true;
    pipeline.migrate_user(&admin, &mut rng).unwrap();
    pipeline.migrate_user(&source_user("bob", None), &mut rng).unwrap();
    let (users, passwords) = pipeline.finish_users();
    let users = users.unwrap();
    assert_eq!(users.len(), 2);
    assert_eq!(passwords.unwrap().len(), 1);
    let alice = users[0].user_id;
    let bob = users[1].user_id;

    for (medium, address) in [("email", "alice@x"), ("msisdn", "4412345"), ("email", "a@y")] {
        let batches = pipeline
            .migrate_threepid(
                SynapseThreepid {
                    user_id: "@alice:example.org".to_owned(),
                    medium: medium.to_owned(),
                    address: address.to_owned(),
                    added_at: at(1_700_000_004_000),
                },
                &mut rng,
            )
            .unwrap();
        assert_eq!(batches, (None, None));
    }
    let (emails, unsupported) = pipeline.finish_threepids();
    let emails = emails.unwrap();
    let unsupported = unsupported.unwrap();
    assert_eq!(emails.iter().map(|e| e.email.as_str()).collect::<Vec<_>>(), vec!["alice@x", "a@y"]);
    assert_eq!(unsupported.len(), 1);
    assert_eq!(unsupported[0].medium, "msisdn");
    assert_eq!(unsupported[0].address, "4412345");

    let batch = pipeline
        .migrate_external_id(
            SynapseExternalId {
                user_id: "@bob:example.org".to_owned(),
                auth_provider: "oidc".to_owned(),
                external_id: "bob-at-idp".to_owned(),
            },
            &mut rng,
        )
        .unwrap();
    assert_eq!(batch, None);
    let links = pipeline.finish_external_ids().unwrap();
    assert_eq!(links.len(), 1);
    assert_eq!(links[0].user_id, bob);
    assert_eq!(links[0].upstream_provider_id, 9);

    for (device_id, last_validated) in [(Some("D1"), Some(1_700_000_001_000)), (None, None), (Some("D1"), None)] {
        let batches = pipeline
            .migrate_unrefreshable_access_token(
                SynapseAccessToken {
                    user_id: "@alice:example.org".to_owned(),
                    device_id: device_id.map(|d| d.to_owned()),
                    token: "t".to_owned(),
                    valid_until_ms: None,
                    last_validated: last_validated.map(at),
                },
                at(CLOCK),
                &mut rng,
            )
            .unwrap();
        assert_eq!(batches, (None, None));
    }
    let (access_tokens, deviceless) = pipeline.finish_unrefreshable_access_tokens();
    let access_tokens = access_tokens.unwrap();
    let deviceless = deviceless.unwrap();
    assert_eq!(access_tokens.len(), 3);
    assert_eq!(deviceless.len(), 1);
    assert_eq!(deviceless[0].session_id, access_tokens[1].session_id);
    assert_eq!(deviceless[0].user_id, alice);
    assert_eq!(access_tokens[0].session_id, access_tokens[2].session_id);

    let batches = pipeline
        .migrate_refreshable_token_pair(
            SynapseRefreshableTokenPair {
                user_id: "@bob:example.org".to_owned(),
                device_id: "D2".to_owned(),
                access_token: "a".to_owned(),
                refresh_token: "r".to_owned(),
                valid_until_ms: None,
                last_validated: Some(at(1_700_000_003_000)),
            },
            at(CLOCK),
            &mut rng,
        )
        .unwrap();
    assert_eq!(batches, (None, None));
    let (pair_tokens, refresh_tokens) = pipeline.finish_refreshable_token_pairs();
    let pair_tokens = pair_tokens.unwrap();
    let refresh_tokens = refresh_tokens.unwrap();
    assert_eq!(refresh_tokens[0].access_token_id, pair_tokens[0].token_id);

    let mut ignored = Vec::new();
    for (owner, device_id, ip, parsed) in [
        ("@alice:example.org", "D1", Some("10.0.0.1"), Some(IpAddress::V4(0x0A00_0001))),
        ("@bob:example.org", "D2", Some("not-an-ip"), None),
        ("@bob:example.org", "D3", None, None),
    ] {
        let (batch, ignored_ip) = pipeline
            .migrate_device(
                SynapseDevice {
                    user_id: owner.to_owned(),
                    device_id: device_id.to_owned(),
                    display_name: None,
                    last_seen: None,
                    ip: ip.map(|ip| ip.to_owned()),
                    user_agent: None,
                },
                parsed,
                at(CLOCK),
                &mut rng,
            )
            .unwrap();
        assert_eq!(batch, None);
        ignored.extend(ignored_ip);
    }
    assert_eq!(ignored, vec!["not-an-ip".to_owned()]);
    let sessions = pipeline.finish_devices().unwrap();
    assert_eq!(sessions.len(), 3);
    assert_eq!(sessions[0].session_id, access_tokens[0].session_id);
    assert_eq!(sessions[0].created_at.millis(), 1_700_000_001_000);
    assert!(sessions[0].is_synapse_admin);
    assert_eq!(sessions[0].last_active_ip, Some(IpAddress::V4(0x0A00_0001)));
    assert_eq!(sessions[1].session_id, pair_tokens[0].session_id);
    assert_eq!(sessions[1].created_at.millis(), 1_700_000_003_000);
    assert!(!sessions[1].is_synapse_admin);
    assert_eq!(sessions[1].last_active_ip, None);
    assert_eq!(sessions[2].created_at.millis(), CLOCK);
    assert_eq!(sessions[2].user_id, bob);
    assert_eq!(pipeline.migration().stage(), Stage::Done);
}

#[test]
fn refused_row_leaves_the_buffers_alone() {
    let mut rng = StdRng::seed_from_u64(4);
    let mut pipeline = new_pipeline();
    pipeline.migrate_user(&source_user("alice", None), &mut rng).unwrap();
    let mut stranger = source_user("mallory", Some("h"));
    stranger.name = "@mallory:elsewhere.org".to_owned();
    assert_eq!(
        pipeline.migrate_user(&stranger, &mut rng),
        Err(Error::InvalidUserId { user: "@mallory:elsewhere.org".to_owned() })
    );
    let (users, passwords) = pipeline.finish_users();
    assert_eq!(users.unwrap().len(), 1);
    assert_eq!(passwords, None);
    pipeline.finish_threepids();
    let result = pipeline.migrate_external_id(
        SynapseExternalId {
            user_id: "@alice:example.org".to_owned(),
            auth_provider: "saml".to_owned(),
            external_id: "s".to_owned(),
        },
        &mut rng,
    );
    assert_eq!(
        result,
        Err(Error::MissingAuthProviderMapping {
            synapse_id: "saml".to_owned(),
            user: "@alice:example.org".to_owned(),
        })
    );
    assert_eq!(pipeline.finish_external_ids(), None);
}
