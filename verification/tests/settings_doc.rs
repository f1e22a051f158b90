use tmcp::errors::TmcpError;
use tmcp::get::decode_did_doc;
use tmcp::settings::{DidType, TmcpSettings};

#[test]
fn default_settings_match_the_documented_values() {
    let s = TmcpSettings::default();
    assert_eq!(s.did_publish_url, "https://did.teaspoon.world/add-vid");
    assert_eq!(s.did_publish_history_url, "https://did.teaspoon.world/add-history/{did}");
    assert_eq!(s.did_web_format, "did:web:did.teaspoon.world:endpoint:{name}");
    assert_eq!(s.did_webvh_format, "did.teaspoon.world/endpoint/{name}");
    assert_eq!(s.transport, "tmcp://");
    assert!(s.verbose);
    assert_eq!(s.wallet_url, "sqlite://wallet.sqlite");
    assert_eq!(s.wallet_password, "unsecure");
    assert!(s.use_webvh);
    assert_eq!(s.did_server, "did.teaspoon.world");
    assert!(matches!(s.did_type, DidType::Webvh));
}

#[test]
fn default_did_type_is_web() {
    assert!(matches!(DidType::default(), DidType::Web));
}

#[test]
fn did_doc_state_id_is_extracted() {
    let body = "{\"state\":{\"@context\":[],\"authentication\":[],\"id\":\"did:web:x:endpoint:y\",\"keyAgreement\":[],\"service\":[],\"verificationMethod\":[]},\"log\":[]}";
    assert_eq!(decode_did_doc(body).expect("decode"), "did:web:x:endpoint:y");
}

#[test]
fn did_doc_without_state_is_refused() {
    // a bare id is not a DID document: the state must decode as one
    for body in [
        "{}",
        "{\"state\":{}}",
        "{\"state\":{\"id\":5}}",
        "{\"state\":{\"id\":\"did:web:x\"}}",
        "not json",
        "",
    ] {
        match decode_did_doc(body) {
            Err(TmcpError::DecodeState(_)) => {}
            other => panic!("expected a decode-state error for {:?}, got {:?}", body, other),
        }
    }
}
