use vstd::prelude::*;

verus! {

/// The error taxonomy of the library.
///
/// Store, verification and publication errors are fatal to bootstrap;
/// transport errors are fatal to the in-flight call only; envelope errors are
/// fatal to a single message.
#[derive(Debug, Clone, PartialEq)]
pub enum TmcpError {
    /// Open/read/write failure against the secure store, and a name already
    /// bound to a different identifier.
    Store(String),
    /// A DID failed resolution or verification.
    Verification(String),
    /// A publish call returned non-success; the identifier may already exist.
    Publication(String),
    /// URL-safe base64 decoding of an envelope failed.
    Base64(String),
    /// The secure-messaging engine refused to seal or open a message.
    TspError(String),
    /// An opened payload was not valid UTF-8.
    StringError(String),
    /// A JSON body could not be decoded.
    SerdeJson(String),
    /// An opened message was not a plain text-bearing message.
    UnsupportedMessageType,
    /// A fetched DID document had no usable state.
    DecodeState(String),
    /// A snapshot with a dangling alias was handed to `import`.
    ImportError(String),
    /// Any other failure of the transport's own machinery.
    TmcpError(String),
}

} // verus!
