use vstd::prelude::*;
use crate::errors::TmcpError;

verus! {

/// What decoding a fetched DID document yields: the `id` of the DID document
/// under the body's `state` field, when the body parses as JSON, carries that
/// field, and the field deserializes as a DID document. A function of the
/// body alone.
pub uninterp spec fn did_doc_id_of(body: Seq<char>) -> Option<Seq<char>>;

/// Relies on serde_json's from_str and from_value and on tsp_sdk's
/// DidDocument: parses the body, takes its `state` field, and deserializes
/// that as a DID document, whose `id` is the published identifier.
#[verifier::external_body]
fn extract_state_id(body: &str) -> (r: Option<String>)
    ensures
        r matches Some(id) ==> did_doc_id_of(body@) == Some(id@),
        r is None ==> did_doc_id_of(body@) is None,
{
    let parsed: serde_json::Value = serde_json::from_str(body).ok()?;
    let state = parsed.get("state")?;
    let doc: tsp_sdk::vid::did::web::DidDocument = serde_json::from_value(state.clone()).ok()?;
    Some(doc.id)
}

/// What a discovery body yields once the outside parser has spoken: a found
/// identifier is handed through unchanged, and nothing found is the exact
/// decode-state error.
pub fn published_did_from(extracted: Option<String>) -> (r: Result<String, TmcpError>)
    ensures
        extracted matches Some(id) ==> r == Ok::<String, TmcpError>(id),
        extracted is None ==> (r matches Err(e) && e is DecodeState),
{
    match extracted {
        Some(id) => Ok(id),
        None => Err(TmcpError::DecodeState("no usable state in DID document".to_owned())),
    }
}

/// The identifier a fetched DID document names: the `id` of the DID document
/// in its `state` field, exactly when the body carries one; every other body
/// yields a decode-state error.
pub fn decode_did_doc(body: &str) -> (r: Result<String, TmcpError>)
    ensures
        r matches Ok(id) ==> did_doc_id_of(body@) == Some(id@),
        did_doc_id_of(body@) is Some ==> r is Ok,
        r is Err ==> did_doc_id_of(body@) is None,
        r matches Err(e) ==> e is DecodeState,
{
    published_did_from(extract_state_id(body))
}

} // verus!
