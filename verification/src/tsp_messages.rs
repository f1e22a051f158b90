use vstd::prelude::*;
use crate::errors::TmcpError;
use crate::wallet::Wallet;
use base64::Engine;

verus! {

use vstd::utf8::{valid_utf8, decode_utf8};

/// What base64's URL-safe engine encodes a byte string to.
pub uninterp spec fn b64url_of(b: Seq<u8>) -> Seq<char>;

/// What base64's URL-safe engine decodes a string to, when it decodes at all.
pub uninterp spec fn b64url_decode_of(s: Seq<char>) -> Option<Seq<u8>>;

/// Relies on base64's URL_SAFE engine: encoding is deterministic and decoding
/// inverts it.
#[verifier::external_body]
fn b64url_encode(b: &[u8]) -> (r: String)
    ensures
        r@ == b64url_of(b@),
        b64url_decode_of(r@) == Some(b@),
{
    base64::engine::general_purpose::URL_SAFE.encode(b)
}

/// Relies on base64's URL_SAFE engine: decoding succeeds exactly on what the
/// engine accepts as URL-safe base64.
#[verifier::external_body]
fn b64url_decode(s: &str) -> (r: Option<Vec<u8>>)
    ensures
        r matches Some(v) ==> b64url_decode_of(s@) == Some(v@),
        r is None ==> b64url_decode_of(s@) is None,
{
    base64::engine::general_purpose::URL_SAFE.decode(s.as_bytes()).ok()
}

/// Relies on std's String::from_utf8: succeeds exactly on valid UTF-8, and
/// decodes the bytes to their characters.
#[verifier::external_body]
fn bytes_to_string(v: Vec<u8>) -> (r: Option<String>)
    ensures
        r is Some <==> valid_utf8(v@),
        r matches Some(s) ==> s@ == decode_utf8(v@),
{
    String::from_utf8(v).ok()
}

/// Relies on tsp_sdk's SecureStore::seal_message: encrypts, encodes and signs
/// the payload from sender to receiver with the wallet's key material.
#[verifier::external_body]
fn store_seal(
    store: &tsp_sdk::SecureStore,
    sender: &str,
    receiver: &str,
    payload: &[u8],
) -> (r: Result<Vec<u8>, String>) {
    match store.seal_message(sender, receiver, payload) {
        Ok((_url, bytes)) => Ok(bytes),
        Err(e) => Err(format!("{e}")),
    }
}

/// A decrypted message, reduced to what the transport reads of it: either the
/// single plain text-bearing kind, with its addressing, or anything else.
pub enum OpenedEnvelope {
    Generic { sender: String, receiver: Option<String>, message: Vec<u8> },
    Other,
}

/// Relies on tsp_sdk's SecureStore::open_message: decrypts and verifies a
/// sealed message addressed to one of the wallet's private VIDs.
#[verifier::external_body]
fn store_open(store: &tsp_sdk::SecureStore, sealed: Vec<u8>) -> (r: Result<
    OpenedEnvelope,
    String,
>) {
    let mut buf = sealed;
    match store.open_message(&mut buf) {
        Ok(tsp_sdk::ReceivedTspMessage::GenericMessage { sender, receiver, message, .. }) => Ok(
            OpenedEnvelope::Generic { sender, receiver, message: message.to_vec() },
        ),
        Ok(_) => Ok(OpenedEnvelope::Other),
        Err(e) => Err(format!("{e}")),
    }
}

/// The wire form of a sealed payload: URL-safe base64 of the engine's bytes.
/// Decoding the result gives back exactly the sealed bytes.
pub fn encode_envelope(sealed: &[u8]) -> (r: String)
    ensures
        r@ == b64url_of(sealed@),
        b64url_decode_of(r@) == Some(sealed@),
{
    b64url_encode(sealed)
}

/// The inverse of [`encode_envelope`]: a string that is not URL-safe base64
/// is refused with a base64 error, never passed on.
pub fn decode_envelope(data: &str) -> (r: Result<Vec<u8>, TmcpError>)
    ensures
        r matches Ok(b) ==> b64url_decode_of(data@) == Some(b@),
        r is Err ==> b64url_decode_of(data@) is None,
        r matches Err(e) ==> e is Base64,
{
    match b64url_decode(data) {
        Some(v) => Ok(v),
        None => Err(TmcpError::Base64("invalid URL-safe base64".to_owned())),
    }
}

/// What one decrypted message yields: the text of the single plain
/// text-bearing kind, a string error when its payload is not UTF-8, and a
/// refusal of every other message kind.
pub fn classify_opened(opened: OpenedEnvelope) -> (r: Result<String, TmcpError>)
    ensures
        opened matches OpenedEnvelope::Generic { message, .. } ==> (if valid_utf8(message@) {
            r matches Ok(s) && s@ == decode_utf8(message@)
        } else {
            r matches Err(e) && e is StringError
        }),
        opened is Other ==> r == Err::<String, TmcpError>(TmcpError::UnsupportedMessageType),
{
    match opened {
        OpenedEnvelope::Generic { sender: _, receiver: _, message } => {
            match bytes_to_string(message) {
                Some(s) => Ok(s),
                None => Err(TmcpError::StringError("message is not valid UTF-8".to_owned())),
            }
        },
        OpenedEnvelope::Other => Err(TmcpError::UnsupportedMessageType),
    }
}

/// Seal one outbound message: the engine seals it from `my_did` to
/// `other_did`, and the opaque result is URL-safe base64 encoded. Encoding
/// itself never fails; only the engine call can.
pub fn seal_message(data: String, wallet: &Wallet, my_did: &str, other_did: &str) -> (r: Result<
    String,
    TmcpError,
>)
    ensures
        r matches Ok(s) ==> b64url_decode_of(s@) is Some,
        r matches Err(e) ==> e is TspError,
{
    let bytes = data.as_str().as_bytes_vec();
    match store_seal(wallet.store(), my_did, other_did, bytes.as_slice()) {
        Ok(sealed) => Ok(encode_envelope(sealed.as_slice())),
        Err(m) => Err(TmcpError::TspError(m)),
    }
}

/// Open one inbound envelope and keep its addressing: URL-safe base64
/// decode, engine open, and the reduced message with its sender and
/// receiver.
pub fn open_received(data: String, wallet: &Wallet) -> (r: Result<OpenedEnvelope, TmcpError>)
    ensures
        b64url_decode_of(data@) is None ==> (r matches Err(e) && e is Base64),
        (r matches Err(e) && e is Base64) ==> b64url_decode_of(data@) is None,
        r is Ok ==> b64url_decode_of(data@) is Some,
        (r matches Err(e) && !(e is Base64)) ==> b64url_decode_of(data@) is Some,
        r matches Err(e) ==> (e is Base64 || e is TspError),
{
    let sealed = match decode_envelope(data.as_str()) {
        Ok(v) => v,
        Err(e) => {
            return Err(e);
        },
    };
    match store_open(wallet.store(), sealed) {
        Ok(opened) => Ok(opened),
        Err(m) => Err(TmcpError::TspError(m)),
    }
}

/// Open one inbound envelope: URL-safe base64 decode, engine open, and
/// require the single plain text-bearing message kind.
///
/// A string that does not decode as base64 always fails with a base64 error;
/// it is never passed to the engine, so a corrupted envelope can never
/// silently yield wrong plaintext at this layer.
pub fn open_message(data: String, wallet: &Wallet) -> (r: Result<String, TmcpError>)
    ensures
        b64url_decode_of(data@) is None ==> (r matches Err(e) && e is Base64),
        (r matches Err(e) && e is Base64) ==> b64url_decode_of(data@) is None,
        r is Ok ==> b64url_decode_of(data@) is Some,
        (r matches Err(e) && !(e is Base64)) ==> b64url_decode_of(data@) is Some,
        r matches Err(e) ==> (e is Base64 || e is TspError || e is StringError
            || e is UnsupportedMessageType),
{
    let sealed = match decode_envelope(data.as_str()) {
        Ok(v) => v,
        Err(e) => {
            return Err(e);
        },
    };
    match store_open(wallet.store(), sealed) {
        Ok(opened) => classify_opened(opened),
        Err(m) => Err(TmcpError::TspError(m)),
    }
}

/// The transform one live stream event's data passes through: a payload that
/// opens replaces the data, and one that does not is omitted, so a single
/// corrupt event never terminates the stream.
pub fn transform_event_data(data: String, wallet: &Wallet) -> (r: Option<String>)
    ensures
        b64url_decode_of(data@) is None ==> r is None,
        r is Some ==> b64url_decode_of(data@) is Some,
{
    crate::response::apply_opened_event_data(open_message(data, wallet))
}

} // verus!
