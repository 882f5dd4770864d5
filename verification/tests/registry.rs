use spotify_remote::creds_registry::CredsRegistry;
use spotify_remote::protocol::{Credentials, ForwardCreds};

fn bundle(key: &str, device: &str, user: &str, secret: &[u8]) -> ForwardCreds {
    ForwardCreds {
        device_name: device.to_string(),
        key: key.to_string(),
        creds: Credentials {
            username: user.to_string(),
            auth_type: 1,
            auth_data: secret.to_vec(),
        },
    }
}

#[test]
fn distinct_keys_insert_and_take_once() {
    let mut reg = CredsRegistry::default();
    assert!(reg.insert(bundle("brad12", "living room", "alice", b"s1")));
    assert!(reg.insert(bundle("beer07", "kitchen", "bob", b"s2")));

    let first = reg.take("brad12").expect("first key present");
    assert_eq!(first.device_name, "living room");
    assert_eq!(first.creds.username, "alice");
    assert_eq!(first.creds.auth_data, b"s1".to_vec());
    assert!(reg.take("brad12").is_none(), "a second take finds nothing");

    let second = reg.take("beer07").expect("second key present");
    assert_eq!(second.device_name, "kitchen");
    assert!(reg.take("beer07").is_none());
}

#[test]
fn duplicate_insert_rejected_and_original_kept() {
    let mut reg = CredsRegistry::default();
    assert!(reg.insert(bundle("bird33", "study", "carol", b"original")));
    assert!(
        !reg.insert(bundle("bird33", "intruder", "mallory", b"replacement")),
        "a present key must be refused"
    );
    let stored = reg.take("bird33").expect("original still stored");
    assert_eq!(stored.device_name, "study");
    assert_eq!(stored.creds.username, "carol");
    assert_eq!(stored.creds.auth_data, b"original".to_vec());
}

#[test]
fn take_unknown_key_finds_nothing() {
    let mut reg = CredsRegistry::default();
    assert!(reg.take("brain99").is_none());
    assert!(reg.insert(bundle("brain98", "hall", "dave", b"x")));
    assert!(reg.take("brain99").is_none());
}

#[test]
fn reinsert_after_take_succeeds() {
    let mut reg = CredsRegistry::default();
    assert!(reg.insert(bundle("bro55", "attic", "erin", b"a")));
    assert!(reg.take("bro55").is_some());
    assert!(reg.insert(bundle("bro55", "attic", "erin", b"b")));
    assert_eq!(reg.take("bro55").unwrap().creds.auth_data, b"b".to_vec());
}

#[test]
fn summary_shows_no_secret_material() {
    let fc = bundle("buck08", "porch", "frank", b"topsecret");
    let line = fc.summary();
    assert_eq!(
        line,
        "ForwardCreds { device_name: porch, key: buck08, creds: frank }"
    );
    assert!(!line.contains("topsecret"));
}

#[test]
fn server_log_line_names_only_device_and_key() {
    let fc = bundle("buck08", "porch", "frank", b"topsecret");
    let line = fc.log_line();
    assert_eq!(line, "forwarded creds { device_name: porch, key: buck08 }");
    assert!(!line.contains("frank"));
    assert!(!line.contains("topsecret"));
}
