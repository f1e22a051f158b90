use tmcp::bootstrap::{
    Bootstrap, BootstrapAction, BootstrapEvent, BootstrapState, format_add_history_url,
    format_add_vid_url, format_did_doc_url, format_did_web, format_transport,
    format_transport_uri, make_username,
};
use tmcp::errors::TmcpError;
use tmcp::settings::{DidType, TmcpSettings, wallet_alias};
use tmcp::wallet::Wallet;

fn settings(did_type: DidType) -> TmcpSettings {
    let mut s = TmcpSettings::default();
    s.did_type = did_type;
    s.use_webvh = false;
    s.did_server = "did.teaspoon.world".to_string();
    s
}

/// A wallet already holding a verified remote peer, as every run has after
/// the remote-verification step, and that peer's DID.
fn wallet_with_remote() -> (Wallet, String) {
    let mut w = Wallet::new();
    let transport = url::Url::parse("tcp://did.teaspoon.world").expect("url");
    let remote = w.add_private_identity(tsp_sdk::OwnedVid::new_did_peer(transport.clone())).expect("add remote");
    (w, remote)
}

#[test]
fn resolved_alias_never_republishes() {
    let (mut w, remote) = wallet_with_remote();
    let transport = url::Url::parse("tcp://did.teaspoon.world").expect("url");
    let did = w.add_private_identity(tsp_sdk::OwnedVid::new_did_peer(transport.clone())).expect("add");
    w.register_alias("pigeon", &did).expect("register");
    let vids_before = 2;

    let mut b = Bootstrap::new("pigeon", &remote, settings(DidType::Peer));
    let a1 = b.step(&mut w, BootstrapEvent::Started);
    match a1 {
        BootstrapAction::VerifyDid { did: d } => assert_eq!(d, did),
        other => panic!("expected a verify action, got {:?}", other),
    }
    let a2 = b.step(&mut w, BootstrapEvent::DidVerified { ok: true });
    match a2 {
        BootstrapAction::VerifyDid { did: d } => assert_eq!(d, remote),
        other => panic!("expected the remote verify action, got {:?}", other),
    }
    let a3 = b.step(&mut w, BootstrapEvent::DidVerified { ok: true });
    match a3 {
        BootstrapAction::Done { my_did } => assert_eq!(my_did, did),
        other => panic!("expected completion, got {:?}", other),
    }
    // no publish and no persist happened: the wallet is as it was
    let snap = w.export();
    assert_eq!(snap.vids.len(), vids_before);
    assert_eq!(snap.aliases.len(), 1);
    assert!(matches!(b.state, BootstrapState::Ready { .. }));
}

#[test]
fn peer_bootstrap_creates_one_identity_without_network() {
    let (mut w, remote) = wallet_with_remote();
    let mut b = Bootstrap::new("pigeon", &remote, settings(DidType::Peer));

    let a1 = b.step(&mut w, BootstrapEvent::Started);
    match a1 {
        BootstrapAction::FetchDidDoc { url } => {
            assert_eq!(url, "https://did.teaspoon.world/endpoint/pigeon/did.jsonl");
        }
        other => panic!("expected discovery, got {:?}", other),
    }

    // discovery finds nothing: the peer strategy derives the identity
    // locally, with no publish call of any kind
    let a2 = b.step(&mut w, BootstrapEvent::DidDocFetched { body: None });
    let my_did = match a2 {
        BootstrapAction::VerifyDid { did } => did,
        other => panic!("expected local verification, got {:?}", other),
    };
    assert!(my_did.starts_with("did:peer:"));

    let a3 = b.step(&mut w, BootstrapEvent::DidVerified { ok: true });
    assert!(matches!(a3, BootstrapAction::Persist));
    // exactly one identity was created, and the alias is bound
    let snap = w.export();
    assert_eq!(snap.vids.len(), 2);
    assert_eq!(w.resolve_alias("pigeon"), Some(my_did.clone()));
    assert!(w.has_private_vid(&my_did));

    let a4 = b.step(&mut w, BootstrapEvent::Persisted { ok: true });
    match a4 {
        BootstrapAction::VerifyDid { did } => assert_eq!(did, remote),
        other => panic!("expected the remote verify action, got {:?}", other),
    }
    let a5 = b.step(&mut w, BootstrapEvent::DidVerified { ok: true });
    match a5 {
        BootstrapAction::Done { my_did: d } => assert_eq!(d, my_did),
        other => panic!("expected completion, got {:?}", other),
    }
}

#[test]
fn web_bootstrap_publishes_once_and_persists_once() {
    let (mut w, remote) = wallet_with_remote();
    let mut b = Bootstrap::new("pigeon", &remote, settings(DidType::Web));

    let a1 = b.step(&mut w, BootstrapEvent::Started);
    assert!(matches!(a1, BootstrapAction::FetchDidDoc { .. }));

    let a2 = b.step(&mut w, BootstrapEvent::DidDocFetched { body: None });
    match a2 {
        BootstrapAction::PostVid { url } => {
            assert_eq!(url, "https://did.teaspoon.world/add-vid");
        }
        other => panic!("expected one publish call, got {:?}", other),
    }
    let my_did = match &b.state {
        BootstrapState::Publishing { did } => did.clone(),
        other => panic!("expected the publishing state, got {:?}", state_name(other)),
    };
    assert!(my_did.starts_with("did:web:did.teaspoon.world:endpoint:pigeon-"));

    let a3 = b.step(&mut w, BootstrapEvent::VidPublished { success: true });
    match a3 {
        BootstrapAction::VerifyDid { did } => assert_eq!(did, my_did),
        other => panic!("expected local verification, got {:?}", other),
    }

    let a4 = b.step(&mut w, BootstrapEvent::DidVerified { ok: true });
    assert!(matches!(a4, BootstrapAction::Persist));
    assert_eq!(w.resolve_alias("pigeon"), Some(my_did.clone()));
    assert!(w.has_private_vid(&my_did));

    let a5 = b.step(&mut w, BootstrapEvent::Persisted { ok: true });
    assert!(matches!(a5, BootstrapAction::VerifyDid { .. }));
    let a6 = b.step(&mut w, BootstrapEvent::DidVerified { ok: true });
    assert!(matches!(a6, BootstrapAction::Done { .. }));
}

#[test]
fn refused_publication_is_fatal() {
    let mut w = Wallet::new();
    let mut b = Bootstrap::new("pigeon", "did:peer:remote", settings(DidType::Web));
    b.step(&mut w, BootstrapEvent::Started);
    b.step(&mut w, BootstrapEvent::DidDocFetched { body: None });
    let a = b.step(&mut w, BootstrapEvent::VidPublished { success: false });
    match a {
        BootstrapAction::Fail { error: TmcpError::Publication(_) } => {}
        other => panic!("expected the publication error, got {:?}", other),
    }
    assert!(matches!(b.state, BootstrapState::Failed));
}

#[test]
fn discovery_success_verifies_the_published_did() {
    let mut w = Wallet::new();
    let mut b = Bootstrap::new("pigeon", "did:peer:remote", settings(DidType::Web));
    b.step(&mut w, BootstrapEvent::Started);
    let body = "{\"state\":{\"@context\":[],\"authentication\":[],\"id\":\"did:web:did.teaspoon.world:endpoint:found\",\"keyAgreement\":[],\"service\":[],\"verificationMethod\":[]}}".to_string();
    let a = b.step(&mut w, BootstrapEvent::DidDocFetched { body: Some(body) });
    match a {
        BootstrapAction::VerifyDid { did } => {
            assert_eq!(did, "did:web:did.teaspoon.world:endpoint:found");
        }
        other => panic!("expected verification of the found DID, got {:?}", other),
    }
    // the found identity was not re-published
    assert!(matches!(b.state, BootstrapState::VerifyingExisting { .. }));
}

#[test]
fn failed_verification_is_fatal() {
    let mut w = Wallet::new();
    let transport = url::Url::parse("tcp://did.teaspoon.world").expect("url");
    let did = w.add_private_identity(tsp_sdk::OwnedVid::new_did_peer(transport.clone())).expect("add");
    w.register_alias("pigeon", &did).expect("register");
    let mut b = Bootstrap::new("pigeon", "did:peer:remote", settings(DidType::Peer));
    b.step(&mut w, BootstrapEvent::Started);
    let a = b.step(&mut w, BootstrapEvent::DidVerified { ok: false });
    match a {
        BootstrapAction::Fail { error: TmcpError::Verification(_) } => {}
        other => panic!("expected a verification error, got {:?}", other),
    }
}

fn state_name(s: &BootstrapState) -> &'static str {
    match s {
        BootstrapState::Start => "start",
        BootstrapState::Discovering => "discovering",
        BootstrapState::VerifyingExisting { .. } => "verifying existing",
        BootstrapState::AwaitingWebvh => "awaiting webvh",
        BootstrapState::Publishing { .. } => "publishing",
        BootstrapState::PublishingHistory { .. } => "publishing history",
        BootstrapState::VerifyingNew { .. } => "verifying new",
        BootstrapState::Persisting { .. } => "persisting",
        BootstrapState::VerifyingRemote { .. } => "verifying remote",
        BootstrapState::Ready { .. } => "ready",
        BootstrapState::Failed => "failed",
    }
}

#[test]
fn webvh_bootstrap_publishes_vid_then_history() {
    let (mut w, remote) = wallet_with_remote();
    let mut s = settings(DidType::Webvh);
    s.use_webvh = true;
    let mut b = Bootstrap::new("pigeon", &remote, s);
    let a1 = b.step(&mut w, BootstrapEvent::Started);
    assert!(matches!(a1, BootstrapAction::FetchDidDoc { .. }));
    let a2 = b.step(&mut w, BootstrapEvent::DidDocFetched { body: None });
    match a2 {
        BootstrapAction::CreateWebvh { did_path, transport } => {
            assert!(did_path.starts_with("did.teaspoon.world/endpoint/pigeon-"));
            assert_eq!(transport, "tcp://did.teaspoon.world");
        }
        other => panic!("expected historical creation, got {:?}", other),
    }
    // the driver creates the identity; a peer identity stands in for it here
    let transport = url::Url::parse("tcp://did.teaspoon.world").expect("url");
    let vid = tsp_sdk::OwnedVid::new_did_peer(transport.clone());
    let a3 = b.step(&mut w, BootstrapEvent::WebvhCreated { vid: Some(vid) });
    match a3 {
        BootstrapAction::PostVid { url } => assert_eq!(url, "https://did.teaspoon.world/add-vid"),
        other => panic!("expected the publish call, got {:?}", other),
    }
    let a4 = b.step(&mut w, BootstrapEvent::VidPublished { success: true });
    match a4 {
        BootstrapAction::PostHistory { url } => {
            assert!(url.starts_with("https://did.teaspoon.world/add-history/did:peer:"));
        }
        other => panic!("expected the history call, got {:?}", other),
    }
    let a5 = b.step(&mut w, BootstrapEvent::HistoryPublished { success: true });
    assert!(matches!(a5, BootstrapAction::VerifyDid { .. }));
    let a6 = b.step(&mut w, BootstrapEvent::DidVerified { ok: true });
    assert!(matches!(a6, BootstrapAction::Persist));
    assert_eq!(w.export().vids.len(), 2);
    assert_eq!(w.resolve_alias("pigeonvh").is_some(), true);
}

#[test]
fn transport_uri_carries_the_local_did() {
    assert_eq!(
        format_transport_uri("https://host/mcp", "did:peer:abc"),
        "https://host/mcp?did=did:peer:abc"
    );
}

#[test]
fn username_strips_spaces_and_caps_length() {
    assert_eq!(make_username("my alias", "1234"), "myalias-1234");
    assert_eq!(make_username("", "1234"), "-1234");
    let long = "a".repeat(80);
    let name = make_username(&long, "1234");
    assert_eq!(name.chars().count(), 63);
}

#[test]
fn formatting_helpers_build_exact_values() {
    assert_eq!(
        format_did_web("did.teaspoon.world", "user-1"),
        "did:web:did.teaspoon.world:endpoint:user-1"
    );
    assert_eq!(
        format_did_web("localhost:8000/x", "u"),
        "did:web:localhost%3A8000:x:endpoint:u"
    );
    assert_eq!(
        format_did_doc_url("d.example", "pigeon"),
        "https://d.example/endpoint/pigeon/did.jsonl"
    );
    assert_eq!(format_add_vid_url("d.example"), "https://d.example/add-vid");
    assert_eq!(
        format_add_history_url("d.example", "did:x"),
        "https://d.example/add-history/did:x"
    );
    assert_eq!(format_transport("d.example"), "tcp://d.example");
    assert_eq!(wallet_alias("pigeon", true), "pigeonvh");
    assert_eq!(wallet_alias("pigeon", false), "pigeon");
}
