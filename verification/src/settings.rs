use vstd::prelude::*;

verus! {

/// The DID-creation strategy a bootstrap run is configured with.
#[derive(Clone, Copy, Debug, PartialEq, Eq, Structural)]
pub enum DidType {
    Web,
    Peer,
    Webvh,
}

impl Default for DidType {
    fn default() -> (r: Self)
        ensures
            r == DidType::Web,
    {
        DidType::Web
    }
}

/// Immutable configuration, resolved once before bootstrap begins.
#[derive(Debug, Clone)]
pub struct TmcpSettings {
    /// DID publish URL
    pub did_publish_url: String,
    /// DID publish history URL template
    pub did_publish_history_url: String,
    /// DID web format template
    pub did_web_format: String,
    /// DID webvh format template
    pub did_webvh_format: String,
    /// Transport protocol prefix
    pub transport: String,
    /// Whether sealed messages should be printed
    pub verbose: bool,
    /// Wallet URL for secure storage
    pub wallet_url: String,
    /// Wallet password
    pub wallet_password: String,
    /// Whether to use webvh DIDs
    pub use_webvh: bool,
    /// DID server address
    pub did_server: String,
    /// Type of DID to create
    pub did_type: DidType,
}

impl Default for TmcpSettings {
    fn default() -> (r: Self)
        ensures
            r.did_publish_url@ == "https://did.teaspoon.world/add-vid"@,
            r.did_publish_history_url@ == "https://did.teaspoon.world/add-history/{did}"@,
            r.did_web_format@ == "did:web:did.teaspoon.world:endpoint:{name}"@,
            r.did_webvh_format@ == "did.teaspoon.world/endpoint/{name}"@,
            r.transport@ == "tmcp://"@,
            r.verbose == true,
            r.wallet_url@ == "sqlite://wallet.sqlite"@,
            r.wallet_password@ == "unsecure"@,
            r.use_webvh == true,
            r.did_server@ == "did.teaspoon.world"@,
            r.did_type == DidType::Webvh,
    {
        TmcpSettings {
            did_publish_url: "https://did.teaspoon.world/add-vid".to_owned(),
            did_publish_history_url: "https://did.teaspoon.world/add-history/{did}".to_owned(),
            did_web_format: "did:web:did.teaspoon.world:endpoint:{name}".to_owned(),
            did_webvh_format: "did.teaspoon.world/endpoint/{name}".to_owned(),
            transport: "tmcp://".to_owned(),
            verbose: true,
            wallet_url: "sqlite://wallet.sqlite".to_owned(),
            wallet_password: "unsecure".to_owned(),
            use_webvh: true,
            did_server: "did.teaspoon.world".to_owned(),
            did_type: DidType::Webvh,
        }
    }
}

/// The alias under which the local identity is looked up in the wallet: the
/// configured alias itself, suffixed with `vh` when the historical-DID
/// variant is in use.
pub open spec fn wallet_alias_spec(alias: Seq<char>, use_webvh: bool) -> Seq<char> {
    if use_webvh {
        alias + "vh"@
    } else {
        alias
    }
}

pub fn wallet_alias(alias: &str, use_webvh: bool) -> (r: String)
    ensures
        r@ == wallet_alias_spec(alias@, use_webvh),
{
    let mut r = alias.to_owned();
    if use_webvh {
        r.append("vh");
    }
    r
}

} // verus!
