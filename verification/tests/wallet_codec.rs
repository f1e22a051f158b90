use tmcp::errors::TmcpError;
use tmcp::tsp_messages::{
    OpenedEnvelope, open_message, open_received, seal_message, transform_event_data,
};
use tmcp::wallet::{Wallet, WalletSnapshot};

fn wallet_with_two_peers() -> (Wallet, String, String) {
    let mut w = Wallet::new();
    let transport = url::Url::parse("tcp://localhost:1337").expect("a valid URL");
    let alice = w.add_private_identity(tsp_sdk::OwnedVid::new_did_peer(transport.clone())).expect("add alice");
    let bob = w.add_private_identity(tsp_sdk::OwnedVid::new_did_peer(transport.clone())).expect("add bob");
    (w, alice, bob)
}

#[test]
fn seal_then_open_round_trips() {
    let (mut w, alice, bob) = wallet_with_two_peers();
    w.set_relation(&alice, &bob).expect("relate");
    let sealed = seal_message("hello world".to_string(), &w, &alice, &bob).expect("seal");
    let opened = open_message(sealed, &w).expect("open");
    assert_eq!(opened, "hello world");
}

#[test]
fn opened_envelope_names_sender_and_receiver() {
    let (mut w, alice, bob) = wallet_with_two_peers();
    w.set_relation(&alice, &bob).expect("relate");
    let sealed = seal_message("16 byte plain ok".to_string(), &w, &alice, &bob).expect("seal");
    match open_received(sealed, &w).expect("open") {
        OpenedEnvelope::Generic { sender, receiver, message } => {
            assert_eq!(sender, alice);
            assert_eq!(receiver, Some(bob));
            assert_eq!(message, b"16 byte plain ok".to_vec());
        }
        OpenedEnvelope::Other => panic!("expected a generic message"),
    }
}

#[test]
fn corrupted_envelope_fails_with_decode_error() {
    let (mut w, alice, bob) = wallet_with_two_peers();
    w.set_relation(&alice, &bob).expect("relate");
    let sealed = seal_message("16 byte plaintext".to_string(), &w, &alice, &bob).expect("seal");
    let mut corrupted: Vec<u8> = sealed.into_bytes();
    let mid = corrupted.len() / 2;
    corrupted[mid] = b'!';
    let corrupted = String::from_utf8(corrupted).expect("still a string");
    match open_message(corrupted, &w) {
        Err(TmcpError::Base64(_)) => {}
        Err(other) => panic!("expected a base64 decode error, got {:?}", other),
        Ok(text) => panic!("a corrupted envelope must never open, got {:?}", text),
    }
}

#[test]
fn garbage_base64_fails_at_the_engine() {
    let (w, _alice, _bob) = wallet_with_two_peers();
    match open_message("AAAA".to_string(), &w) {
        Err(TmcpError::TspError(_)) => {}
        other => panic!("expected an engine refusal, got {:?}", other),
    }
}

#[test]
fn sealing_with_unknown_identities_fails() {
    let w = Wallet::new();
    match seal_message("x".to_string(), &w, "did:peer:unknown", "did:peer:other") {
        Err(TmcpError::TspError(_)) => {}
        other => panic!("expected a seal failure, got {:?}", other),
    }
}

#[test]
fn stream_events_open_or_lose_their_data() {
    let (mut w, alice, bob) = wallet_with_two_peers();
    w.set_relation(&alice, &bob).expect("relate");
    let sealed = seal_message("push".to_string(), &w, &alice, &bob).expect("seal");
    assert_eq!(transform_event_data(sealed, &w), Some("push".to_string()));
    // a corrupt event is passed on with its data omitted, not dropped
    assert_eq!(transform_event_data("!!not-base64!!".to_string(), &w), None);
}

#[test]
fn alias_registration_is_idempotent_and_unique() {
    let (mut w, alice, bob) = wallet_with_two_peers();
    assert!(w.register_alias("pigeon", &alice).is_ok());
    // re-registering the same identifier is a no-op
    assert!(w.register_alias("pigeon", &alice).is_ok());
    assert_eq!(w.resolve_alias("pigeon"), Some(alice.clone()));
    // a different identifier under the same name is refused
    match w.register_alias("pigeon", &bob) {
        Err(TmcpError::Store(_)) => {}
        other => panic!("expected a store error, got {:?}", other),
    }
    assert_eq!(w.resolve_alias("pigeon"), Some(alice));
}

#[test]
fn resolve_and_private_lookup() {
    let (mut w, alice, _bob) = wallet_with_two_peers();
    assert_eq!(w.resolve_alias("missing"), None);
    assert!(w.has_private_vid(&alice));
    assert!(!w.has_private_vid("did:peer:unknown"));
    w.register_alias("me", &alice).expect("register");
    assert_eq!(w.resolve_alias("me"), Some(alice));
}

#[test]
fn export_then_import_round_trips() {
    let (mut w, alice, _bob) = wallet_with_two_peers();
    w.register_alias("pigeon", &alice).expect("register");
    let snap = w.export();
    let mut w2 = Wallet::new();
    w2.import(&snap).expect("import");
    assert_eq!(w2.resolve_alias("pigeon"), Some(alice.clone()));
    assert!(w2.has_private_vid(&alice));
}

#[test]
fn import_refuses_dangling_alias() {
    let snap = WalletSnapshot {
        vids: vec![("did:peer:known".to_string(), false)],
        aliases: vec![("name".to_string(), "did:peer:absent".to_string())],
    };
    let mut w = Wallet::new();
    match w.import(&snap) {
        Err(TmcpError::ImportError(_)) => {}
        other => panic!("expected an import error, got {:?}", other),
    }
    assert_eq!(w.resolve_alias("name"), None);
}

#[test]
fn import_refuses_duplicate_alias_names() {
    let snap = WalletSnapshot {
        vids: vec![("did:peer:a".to_string(), false), ("did:peer:b".to_string(), false)],
        aliases: vec![
            ("name".to_string(), "did:peer:a".to_string()),
            ("name".to_string(), "did:peer:b".to_string()),
        ],
    };
    let mut w = Wallet::new();
    match w.import(&snap) {
        Err(TmcpError::ImportError(_)) => {}
        other => panic!("expected an import error, got {:?}", other),
    }
}
