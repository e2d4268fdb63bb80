use syn2mas::{extract_localpart, Error};

fn invalid(user: &str) -> Error {
    Error::InvalidUserId { user: user.to_owned() }
}

#[test]
fn localpart_of_a_user_of_the_server() {
    assert_eq!(extract_localpart("@alice:example.org", "example.org"), Ok("alice".to_owned()));
    assert_eq!(extract_localpart("@bob:matrix.example.org", "matrix.example.org"), Ok("bob".to_owned()));
}

#[test]
fn user_id_round_trip() {
    for (user_id, server_name) in [
        ("@alice:example.org", "example.org"),
        ("@a.b-c_d=e/f:example.org", "example.org"),
        ("@:example.org", "example.org"),
        ("@alice:example.org:8448", "example.org:8448"),
        ("@\u{e9}l\u{e9}onore:\u{fc}ber.example", "\u{fc}ber.example"),
    ] {
        let localpart = extract_localpart(user_id, server_name).unwrap();
        assert_eq!(format!("@{}:{}", localpart, server_name), user_id);
        assert!(!localpart.contains(':'));
    }
}

#[test]
fn server_name_with_a_port_starts_at_the_first_colon() {
    assert_eq!(
        extract_localpart("@alice:example.org:8448", "example.org:8448"),
        Ok("alice".to_owned())
    );
    assert_eq!(
        extract_localpart("@alice:example.org:8448", "example.org"),
        Err(invalid("@alice:example.org:8448"))
    );
    assert_eq!(
        extract_localpart("@alice:8448:example.org", "example.org"),
        Err(invalid("@alice:8448:example.org"))
    );
}

#[test]
fn empty_localpart_and_empty_server_name() {
    assert_eq!(extract_localpart("@:example.org", "example.org"), Ok(String::new()));
    assert_eq!(extract_localpart("@alice:", ""), Ok("alice".to_owned()));
    assert_eq!(extract_localpart("@:", ""), Ok(String::new()));
    assert_eq!(extract_localpart("@alice:", "example.org"), Err(invalid("@alice:")));
}

#[test]
fn user_id_without_the_sigil_is_refused() {
    assert_eq!(extract_localpart("alice:example.org", "example.org"), Err(invalid("alice:example.org")));
    assert_eq!(extract_localpart("", "example.org"), Err(invalid("")));
    assert_eq!(extract_localpart("#alice:example.org", "example.org"), Err(invalid("#alice:example.org")));
    assert_eq!(extract_localpart(" @alice:example.org", "example.org"), Err(invalid(" @alice:example.org")));
}

#[test]
fn user_id_without_a_colon_is_refused() {
    assert_eq!(extract_localpart("@alice", "example.org"), Err(invalid("@alice")));
    assert_eq!(extract_localpart("@", "example.org"), Err(invalid("@")));
    assert_eq!(extract_localpart("@alice", ""), Err(invalid("@alice")));
}

#[test]
fn user_id_of_another_server_is_refused() {
    assert_eq!(extract_localpart("@alice:example.com", "example.org"), Err(invalid("@alice:example.com")));
    assert_eq!(extract_localpart("@alice:example.org", "example.org.uk"), Err(invalid("@alice:example.org")));
    assert_eq!(extract_localpart("@alice:example.org.uk", "example.org"), Err(invalid("@alice:example.org.uk")));
    assert_eq!(extract_localpart("@alice:xexample.org", "example.org"), Err(invalid("@alice:xexample.org")));
}

#[test]
fn server_name_is_compared_exactly() {
    assert_eq!(extract_localpart("@alice:Example.org", "example.org"), Err(invalid("@alice:Example.org")));
    assert_eq!(extract_localpart("@alice:example.org ", "example.org"), Err(invalid("@alice:example.org ")));
    assert_eq!(extract_localpart("@Alice:example.org", "example.org"), Ok("Alice".to_owned()));
}
