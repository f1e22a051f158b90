use vstd::prelude::*;
use crate::errors::TmcpError;
use crate::get::{decode_did_doc, did_doc_id_of};
use crate::settings::{DidType, TmcpSettings, wallet_alias, wallet_alias_spec};
use crate::strings::{escape_server, escape_server_spec, strip_spaces, strip_spaces_spec,
    truncate_chars};
use crate::wallet::{Wallet, contains_str, lookup_alias, make_bound_vid, make_peer_vid,
    parse_url, url_ok, vid_identifier};

verus! {

/// Relies on uuid's Uuid::new_v4 and its hyphenated text form: a fresh random
/// identifier, always 36 characters.
#[verifier::external_body]
fn new_uuid() -> (r: String)
    ensures
        r@.len() == 36,
{
    uuid::Uuid::new_v4().to_string()
}

/// The generated username a provisioned identity is published under: the
/// alias with spaces stripped, a hyphen, and a random identifier, truncated
/// to the 63 characters a DNS label allows. An empty alias still yields a
/// valid username through the random suffix alone.
pub open spec fn username_spec(alias: Seq<char>, uuid: Seq<char>) -> Seq<char> {
    let full = strip_spaces_spec(alias) + seq!['-'] + uuid;
    if full.len() <= 63 {
        full
    } else {
        full.take(63)
    }
}

pub fn make_username(alias: &str, uuid: &str) -> (r: String)
    ensures
        r@ == username_spec(alias@, uuid@),
{
    let mut s = strip_spaces(alias);
    s.push('-');
    s.append(uuid);
    proof {
        assert(s@ =~= strip_spaces_spec(alias@) + seq!['-'] + uuid@);
    }
    let r = truncate_chars(s.as_str(), 63);
    proof {
        if s@.len() == 63 {
            assert(s@.take(63) =~= s@);
        }
        assert(r@ =~= username_spec(alias@, uuid@));
    }
    r
}

/// The deterministic `did:web` identifier built from the DID-server host and
/// a username.
pub open spec fn did_web_spec(server: Seq<char>, username: Seq<char>) -> Seq<char> {
    "did:web:"@ + escape_server_spec(server) + ":endpoint:"@ + username
}

pub fn format_did_web(server: &str, username: &str) -> (r: String)
    ensures
        r@ == did_web_spec(server@, username@),
{
    let mut s = "did:web:".to_owned();
    s.append(escape_server(server).as_str());
    s.append(":endpoint:");
    s.append(username);
    s
}

/// Where a previously published DID document for `user` is looked for.
pub open spec fn did_doc_url_spec(server: Seq<char>, user: Seq<char>) -> Seq<char> {
    "https://"@ + server + "/endpoint/"@ + user + "/did.jsonl"@
}

pub fn format_did_doc_url(server: &str, user: &str) -> (r: String)
    ensures
        r@ == did_doc_url_spec(server@, user@),
{
    let mut s = "https://".to_owned();
    s.append(server);
    s.append("/endpoint/");
    s.append(user);
    s.append("/did.jsonl");
    s
}

/// Where a DID's public document is published.
pub open spec fn add_vid_url_spec(server: Seq<char>) -> Seq<char> {
    "https://"@ + server + "/add-vid"@
}

pub fn format_add_vid_url(server: &str) -> (r: String)
    ensures
        r@ == add_vid_url_spec(server@),
{
    let mut s = "https://".to_owned();
    s.append(server);
    s.append("/add-vid");
    s
}

/// Where a DID's history log is published.
pub open spec fn add_history_url_spec(server: Seq<char>, did: Seq<char>) -> Seq<char> {
    "https://"@ + server + "/add-history/"@ + did
}

pub fn format_add_history_url(server: &str, did: &str) -> (r: String)
    ensures
        r@ == add_history_url_spec(server@, did@),
{
    let mut s = "https://".to_owned();
    s.append(server);
    s.append("/add-history/");
    s.append(did);
    s
}

/// The transport locator a provisioned identity is bound to.
pub open spec fn transport_spec(server: Seq<char>) -> Seq<char> {
    "tcp://"@ + server
}

pub fn format_transport(server: &str) -> (r: String)
    ensures
        r@ == transport_spec(server@),
{
    let mut s = "tcp://".to_owned();
    s.append(server);
    s
}

/// The path a historical DID is created under.
pub open spec fn webvh_did_path_spec(server: Seq<char>, username: Seq<char>) -> Seq<char> {
    server + "/endpoint/"@ + username
}

pub fn format_webvh_did_path(server: &str, username: &str) -> (r: String)
    ensures
        r@ == webvh_did_path_spec(server@, username@),
{
    let mut s = server.to_owned();
    s.append("/endpoint/");
    s.append(username);
    s
}

/// What discovery found: the identifier the fetched body names, when a body
/// arrived and decodes as a DID document.
pub open spec fn discovered(body: Option<String>) -> Option<Seq<char>> {
    match body {
        Some(b) => did_doc_id_of(b@),
        None => None,
    }
}

/// The URI the transport drives: the server-supplied URI carrying the local
/// DID as a query parameter.
pub open spec fn transport_uri_spec(uri: Seq<char>, did: Seq<char>) -> Seq<char> {
    uri + "?did="@ + did
}

pub fn format_transport_uri(uri: &str, did: &str) -> (r: String)
    ensures
        r@ == transport_uri_spec(uri@, did@),
{
    let mut s = uri.to_owned();
    s.append("?did=");
    s.append(did);
    s
}

/// The states of identity bootstrap. Verification of the remote peer happens
/// on every run; publication and persistence happen only on the provisioning
/// path.
#[derive(Debug)]
pub enum BootstrapState {
    Start,
    Discovering,
    VerifyingExisting { did: String },
    AwaitingWebvh,
    Publishing { did: String },
    PublishingHistory { did: String },
    VerifyingNew { did: String },
    Persisting { did: String },
    VerifyingRemote { did: String },
    Ready { did: String },
    Failed,
}

/// What the driver reports back to the machine: the outcome of the one
/// outside operation the last action asked for.
pub enum BootstrapEvent {
    Started,
    DidDocFetched { body: Option<String> },
    WebvhCreated { vid: Option<tsp_sdk::OwnedVid> },
    VidPublished { success: bool },
    HistoryPublished { success: bool },
    DidVerified { ok: bool },
    Persisted { ok: bool },
}

/// What the machine asks the driver to do next.
#[derive(Debug)]
pub enum BootstrapAction {
    FetchDidDoc { url: String },
    VerifyDid { did: String },
    CreateWebvh { did_path: String, transport: String },
    PostVid { url: String },
    PostHistory { url: String },
    Persist,
    Done { my_did: String },
    Fail { error: TmcpError },
}

#[derive(PartialEq, Eq, Structural, Clone, Copy, Debug)]
pub enum ActionKind {
    FetchDidDoc,
    VerifyDid,
    CreateWebvh,
    PostVid,
    PostHistory,
    Persist,
    Done,
    Fail,
}

pub open spec fn kind_of(a: BootstrapAction) -> ActionKind {
    match a {
        BootstrapAction::FetchDidDoc { .. } => ActionKind::FetchDidDoc,
        BootstrapAction::VerifyDid { .. } => ActionKind::VerifyDid,
        BootstrapAction::CreateWebvh { .. } => ActionKind::CreateWebvh,
        BootstrapAction::PostVid { .. } => ActionKind::PostVid,
        BootstrapAction::PostHistory { .. } => ActionKind::PostHistory,
        BootstrapAction::Persist => ActionKind::Persist,
        BootstrapAction::Done { .. } => ActionKind::Done,
        BootstrapAction::Fail { .. } => ActionKind::Fail,
    }
}

/// A publication or persistence action: what a run that found the local
/// alias already bound must never issue.
pub open spec fn is_publishing_action(k: ActionKind) -> bool {
    k == ActionKind::CreateWebvh || k == ActionKind::PostVid || k == ActionKind::PostHistory
        || k == ActionKind::Persist
}

/// States from which bootstrap can no longer publish or persist: the
/// already-resolved verification path and the terminal states.
pub open spec fn on_resolved_path(s: BootstrapState) -> bool {
    s is VerifyingExisting || s is VerifyingRemote || s is Ready || s is Failed
}

/// The identity bootstrap state machine.
///
/// The driver performs each returned action (a fetch, a verification, a
/// publish call, a persist) and reports its outcome as the next event; every
/// decision in between is made here. A run whose local alias already resolves
/// moves along the resolved path and never publishes or persists.
pub struct Bootstrap {
    pub settings: TmcpSettings,
    pub alias: String,
    pub remote_did: String,
    pub state: BootstrapState,
    pub pending_vid: Option<tsp_sdk::OwnedVid>,
}

impl Bootstrap {
    pub fn new(alias: &str, remote_did: &str, settings: TmcpSettings) -> (r: Bootstrap)
        ensures
            r.state is Start,
            r.alias@ == alias@,
            r.remote_did@ == remote_did@,
            r.settings == settings,
    {
        Bootstrap {
            settings,
            alias: alias.to_owned(),
            remote_did: remote_did.to_owned(),
            state: BootstrapState::Start,
            pending_vid: None,
        }
    }

    /// The created identity the driver publishes, while one is awaiting
    /// publication.
    pub fn pending_vid(&self) -> Option<&tsp_sdk::OwnedVid> {
        self.pending_vid.as_ref()
    }

    /// One transition: consume the outcome of the previous action and decide
    /// the next, updating the wallet where the protocol says so.
    pub fn step(&mut self, wallet: &mut Wallet, event: BootstrapEvent) -> (action: BootstrapAction)
        requires
            old(wallet).wf(),
        ensures
            final(wallet).wf(),
            final(self).settings == old(self).settings,
            final(self).alias@ == old(self).alias@,
            final(self).remote_did@ == old(self).remote_did@,
            // a run that has found its DID never publishes or persists
            on_resolved_path(old(self).state) ==> (on_resolved_path(final(self).state)
                && !is_publishing_action(kind_of(action))
                && final(wallet).vids_view() == old(wallet).vids_view()
                && final(wallet).private_view() == old(wallet).private_view()
                && final(wallet).aliases_view() == old(wallet).aliases_view()),
            // an already-bound alias enters the resolved path at once; an
            // unknown one goes to discovery, at the exact URL; the wallet is
            // untouched either way
            (old(self).state is Start && event is Started) ==> ({
                let looked = lookup_alias(
                    old(wallet).aliases_view(),
                    wallet_alias_spec(old(self).alias@, old(self).settings.use_webvh),
                );
                &&& looked is Some ==> (final(self).state is VerifyingExisting && action
                    is VerifyDid && Some(action->VerifyDid_did@) == looked && Some(
                    final(self).state->VerifyingExisting_did@,
                ) == looked)
                &&& looked is None ==> (final(self).state is Discovering && action is FetchDidDoc
                    && action->FetchDidDoc_url@ == did_doc_url_spec(
                    old(self).settings.did_server@,
                    old(self).alias@,
                ))
                &&& final(wallet).vids_view() == old(wallet).vids_view()
                &&& final(wallet).private_view() == old(wallet).private_view()
                &&& final(wallet).aliases_view() == old(wallet).aliases_view()
            }),
            // a discovered DID is verified as the existing identity; nothing
            // found enters the configured publication protocol; the wallet is
            // untouched either way
            (old(self).state is Discovering && event is DidDocFetched) ==> ({
                &&& final(wallet).vids_view() == old(wallet).vids_view()
                &&& final(wallet).private_view() == old(wallet).private_view()
                &&& final(wallet).aliases_view() == old(wallet).aliases_view()
                &&& (discovered(event->DidDocFetched_body) matches Some(d) ==> (final(self).state
                    is VerifyingExisting && action is VerifyDid && action->VerifyDid_did@ == d
                    && final(self).state->VerifyingExisting_did@ == d))
                &&& (discovered(event->DidDocFetched_body) is None ==> ({
                    &&& old(self).settings.did_type == DidType::Peer ==> (if url_ok(
                        transport_spec(old(self).settings.did_server@),
                    ) {
                        final(self).state is VerifyingNew && action is VerifyDid && action
                            ->VerifyDid_did@ == final(self).state->VerifyingNew_did@
                    } else {
                        final(self).state is Failed && action is Fail && action->Fail_error
                            is Publication
                    })
                    &&& old(self).settings.did_type == DidType::Web ==> (if url_ok(
                        transport_spec(old(self).settings.did_server@),
                    ) {
                        final(self).state is Publishing && action is PostVid && action
                            ->PostVid_url@ == add_vid_url_spec(old(self).settings.did_server@)
                    } else {
                        final(self).state is Failed && action is Fail && action->Fail_error
                            is Publication
                    })
                    &&& old(self).settings.did_type == DidType::Webvh ==> (final(self).state
                        is AwaitingWebvh && action is CreateWebvh && action->CreateWebvh_transport@
                        == transport_spec(old(self).settings.did_server@))
                }))
            }),
            // a created historical identity moves to publication; a failed
            // creation is fatal
            (old(self).state is AwaitingWebvh && event is WebvhCreated) ==> (if event
                ->WebvhCreated_vid is Some {
                final(self).state is Publishing && action is PostVid && action->PostVid_url@
                    == add_vid_url_spec(old(self).settings.did_server@)
            } else {
                final(self).state is Failed && action is Fail && action->Fail_error
                    is Publication
            }),
            // a publish refusal is fatal, with the publication error; success
            // verifies the new DID, or publishes history first for the
            // historical variant
            (old(self).state is Publishing && event is VidPublished) ==> (if event
                ->VidPublished_success {
                if old(self).settings.did_type == DidType::Webvh {
                    final(self).state is PublishingHistory && action is PostHistory && action
                        ->PostHistory_url@ == add_history_url_spec(
                        old(self).settings.did_server@,
                        old(self).state->Publishing_did@,
                    ) && final(self).state->PublishingHistory_did@ == old(self).state->Publishing_did@
                } else {
                    final(self).state is VerifyingNew && action is VerifyDid && action
                        ->VerifyDid_did@ == old(self).state->Publishing_did@ && final(self).state->VerifyingNew_did@ == old(self).state->Publishing_did@
                }
            } else {
                final(self).state is Failed && action is Fail && action->Fail_error
                    is Publication
            }),
            (old(self).state is PublishingHistory && event is HistoryPublished) ==> (if event
                ->HistoryPublished_success {
                final(self).state is VerifyingNew && action is VerifyDid && action->VerifyDid_did@
                    == old(self).state->PublishingHistory_did@ && final(self).state->VerifyingNew_did@ == old(self).state->PublishingHistory_did@
            } else {
                final(self).state is Failed && action is Fail && action->Fail_error
                    is Publication
            }),
            // a verified new identity is taken into the wallet, registered
            // under the local alias, and the snapshot is then persisted:
            // exactly one identity is created on the provisioning path, and
            // its private keys are held
            (old(self).state is VerifyingNew && event is DidVerified) ==> (if event
                ->DidVerified_ok {
                (final(self).state is Persisting && kind_of(action) == ActionKind::Persist
                    && final(wallet).vids_view().len() == old(wallet).vids_view().len() + 1
                    && final(wallet).private_view().len() == old(wallet).private_view().len() + 1
                    && contains_str(
                    final(wallet).private_view(),
                    final(self).state->Persisting_did@,
                ) && lookup_alias(
                    final(wallet).aliases_view(),
                    wallet_alias_spec(old(self).alias@, old(self).settings.use_webvh),
                ) == Some(final(self).state->Persisting_did@)) || (final(self).state is Failed
                    && kind_of(action) == ActionKind::Fail)
            } else {
                final(self).state is Failed && action is Fail && action->Fail_error
                    is Verification
            }),
            // persistence done: verify the remote peer, as every run does
            (old(self).state is Persisting && event is Persisted) ==> (if event->Persisted_ok {
                final(self).state is VerifyingRemote && action is VerifyDid && action
                    ->VerifyDid_did@ == old(self).remote_did@ && final(self).state->VerifyingRemote_did@ == old(self).state->Persisting_did@
            } else {
                final(self).state is Failed && action is Fail && action->Fail_error is Store
            }),
            // the existing-identity path verifies the remote peer next
            (old(self).state is VerifyingExisting && event is DidVerified) ==> (if event
                ->DidVerified_ok {
                final(self).state is VerifyingRemote && action is VerifyDid && action
                    ->VerifyDid_did@ == old(self).remote_did@ && final(self).state->VerifyingRemote_did@ == old(self).state->VerifyingExisting_did@
            } else {
                final(self).state is Failed && action is Fail && action->Fail_error
                    is Verification
            }),
            // remote verified: the transport may be used under the local DID
            (old(self).state is VerifyingRemote && event is DidVerified) ==> (if event
                ->DidVerified_ok {
                (final(self).state is Ready && action is Done && action->Done_my_did@ == old(self).state->VerifyingRemote_did@ && final(self).state->Ready_did@ == old(self).state->VerifyingRemote_did@) || (final(self).state is Failed && kind_of(action)
                    == ActionKind::Fail)
            } else {
                final(self).state is Failed && action is Fail && action->Fail_error
                    is Verification
            }),
            // a failing action always lands in the failed state
            kind_of(action) == ActionKind::Fail ==> final(self).state is Failed,
    {
        let mut st = BootstrapState::Failed;
        core::mem::swap(&mut st, &mut self.state);
        match (st, event) {
            (BootstrapState::Start, BootstrapEvent::Started) => {
                let wa = wallet_alias(self.alias.as_str(), self.settings.use_webvh);
                match wallet.resolve_alias(wa.as_str()) {
                    Some(did) => {
                        let action = BootstrapAction::VerifyDid { did: did.clone() };
                        self.state = BootstrapState::VerifyingExisting { did };
                        action
                    },
                    None => {
                        let url = format_did_doc_url(
                            self.settings.did_server.as_str(),
                            self.alias.as_str(),
                        );
                        self.state = BootstrapState::Discovering;
                        BootstrapAction::FetchDidDoc { url }
                    },
                }
            },
            (BootstrapState::Discovering, BootstrapEvent::DidDocFetched { body }) => {
                let found: Option<String> = match body {
                    Some(b) => {
                        match decode_did_doc(b.as_str()) {
                            Ok(did) => Some(did),
                            Err(_) => None,
                        }
                    },
                    None => None,
                };
                match found {
                    Some(did) => {
                        let action = BootstrapAction::VerifyDid { did: did.clone() };
                        self.state = BootstrapState::VerifyingExisting { did };
                        action
                    },
                    None => self.begin_publication(),
                }
            },
            (BootstrapState::AwaitingWebvh, BootstrapEvent::WebvhCreated { vid }) => {
                match vid {
                    Some(v) => {
                        let did = vid_identifier(&v);
                        self.pending_vid = Some(v);
                        let url = format_add_vid_url(self.settings.did_server.as_str());
                        self.state = BootstrapState::Publishing { did };
                        BootstrapAction::PostVid { url }
                    },
                    None => {
                        self.state = BootstrapState::Failed;
                        BootstrapAction::Fail {
                            error: TmcpError::Publication(
                                "could not create the historical identity".to_owned(),
                            ),
                        }
                    },
                }
            },
            (BootstrapState::Publishing { did }, BootstrapEvent::VidPublished { success }) => {
                if success {
                    if matches!(self.settings.did_type, DidType::Webvh) {
                        let url = format_add_history_url(
                            self.settings.did_server.as_str(),
                            did.as_str(),
                        );
                        let action = BootstrapAction::PostHistory { url };
                        self.state = BootstrapState::PublishingHistory { did };
                        action
                    } else {
                        let action = BootstrapAction::VerifyDid { did: did.clone() };
                        self.state = BootstrapState::VerifyingNew { did };
                        action
                    }
                } else {
                    self.state = BootstrapState::Failed;
                    BootstrapAction::Fail {
                        error: TmcpError::Publication(
                            "the DID could not be published; it may already exist".to_owned(),
                        ),
                    }
                }
            },
            (
                BootstrapState::PublishingHistory { did },
                BootstrapEvent::HistoryPublished { success },
            ) => {
                if success {
                    let action = BootstrapAction::VerifyDid { did: did.clone() };
                    self.state = BootstrapState::VerifyingNew { did };
                    action
                } else {
                    self.state = BootstrapState::Failed;
                    BootstrapAction::Fail {
                        error: TmcpError::Publication(
                            "the DID history could not be published; it may already exist"
                                .to_owned(),
                        ),
                    }
                }
            },
            (BootstrapState::VerifyingNew { did: _ }, BootstrapEvent::DidVerified { ok }) => {
                if ok {
                    let mut pending: Option<tsp_sdk::OwnedVid> = None;
                    core::mem::swap(&mut pending, &mut self.pending_vid);
                    match pending {
                        Some(v) => self.take_verified_identity(wallet, v),
                        None => {
                            self.state = BootstrapState::Failed;
                            BootstrapAction::Fail {
                                error: TmcpError::TmcpError(
                                    "no created identity awaits verification".to_owned(),
                                ),
                            }
                        },
                    }
                } else {
                    self.state = BootstrapState::Failed;
                    BootstrapAction::Fail {
                        error: TmcpError::Verification(
                            "the provisioned DID failed verification".to_owned(),
                        ),
                    }
                }
            },
            (BootstrapState::Persisting { did }, BootstrapEvent::Persisted { ok }) => {
                if ok {
                    let action = BootstrapAction::VerifyDid { did: self.remote_did.clone() };
                    self.state = BootstrapState::VerifyingRemote { did };
                    action
                } else {
                    self.state = BootstrapState::Failed;
                    BootstrapAction::Fail {
                        error: TmcpError::Store(
                            "the wallet snapshot could not be persisted".to_owned(),
                        ),
                    }
                }
            },
            (BootstrapState::VerifyingExisting { did }, BootstrapEvent::DidVerified { ok }) => {
                if ok {
                    let action = BootstrapAction::VerifyDid { did: self.remote_did.clone() };
                    self.state = BootstrapState::VerifyingRemote { did };
                    action
                } else {
                    self.state = BootstrapState::Failed;
                    BootstrapAction::Fail {
                        error: TmcpError::Verification(
                            "the resolved DID failed verification".to_owned(),
                        ),
                    }
                }
            },
            (BootstrapState::VerifyingRemote { did }, BootstrapEvent::DidVerified { ok }) => {
                if ok {
                    match wallet.set_relation(self.remote_did.as_str(), did.as_str()) {
                        Ok(_) => {
                            let action = BootstrapAction::Done { my_did: did.clone() };
                            self.state = BootstrapState::Ready { did };
                            action
                        },
                        Err(e) => {
                            self.state = BootstrapState::Failed;
                            BootstrapAction::Fail { error: e }
                        },
                    }
                } else {
                    self.state = BootstrapState::Failed;
                    BootstrapAction::Fail {
                        error: TmcpError::Verification(
                            "the remote DID failed verification".to_owned(),
                        ),
                    }
                }
            },
            (_, _) => {
                self.state = BootstrapState::Failed;
                BootstrapAction::Fail {
                    error: TmcpError::TmcpError(
                        "bootstrap was driven with an unexpected event".to_owned(),
                    ),
                }
            },
        }
    }

    /// Enter the configured publication protocol: derive a peer identity on
    /// the spot, build and bind a `did:web` identity for publication, or ask
    /// the driver to create the historical variant. The peer and web
    /// strategies fail only when the transport locator is not a URL.
    fn begin_publication(&mut self) -> (action: BootstrapAction)
        ensures
            final(self).settings == old(self).settings,
            final(self).alias@ == old(self).alias@,
            final(self).remote_did@ == old(self).remote_did@,
            old(self).settings.did_type == DidType::Peer ==> (if url_ok(
                transport_spec(old(self).settings.did_server@),
            ) {
                final(self).state is VerifyingNew && action is VerifyDid && action->VerifyDid_did@
                    == final(self).state->VerifyingNew_did@
            } else {
                final(self).state is Failed && action is Fail && action->Fail_error
                    is Publication
            }),
            old(self).settings.did_type == DidType::Web ==> (if url_ok(
                transport_spec(old(self).settings.did_server@),
            ) {
                final(self).state is Publishing && action is PostVid && action->PostVid_url@
                    == add_vid_url_spec(old(self).settings.did_server@)
            } else {
                final(self).state is Failed && action is Fail && action->Fail_error
                    is Publication
            }),
            old(self).settings.did_type == DidType::Webvh ==> (final(self).state is AwaitingWebvh
                && action is CreateWebvh && action->CreateWebvh_transport@ == transport_spec(
                old(self).settings.did_server@,
            )),
            kind_of(action) == ActionKind::Fail ==> final(self).state is Failed,
    {
        let transport = format_transport(self.settings.did_server.as_str());
        match &self.settings.did_type {
            DidType::Peer => {
                match parse_url(transport.as_str()) {
                    Some(transport_url) => {
                        let v = make_peer_vid(&transport_url);
                        let did = vid_identifier(&v);
                        self.pending_vid = Some(v);
                        let action = BootstrapAction::VerifyDid { did: did.clone() };
                        self.state = BootstrapState::VerifyingNew { did };
                        action
                    },
                    None => {
                        self.state = BootstrapState::Failed;
                        BootstrapAction::Fail {
                            error: TmcpError::Publication(
                                "the transport locator is not a valid URL".to_owned(),
                            ),
                        }
                    },
                }
            },
            DidType::Web => {
                match parse_url(transport.as_str()) {
                    Some(transport_url) => {
                        let uuid = new_uuid();
                        let username = make_username(self.alias.as_str(), uuid.as_str());
                        let did = format_did_web(
                            self.settings.did_server.as_str(),
                            username.as_str(),
                        );
                        let v = make_bound_vid(did.as_str(), &transport_url);
                        self.pending_vid = Some(v);
                        let url = format_add_vid_url(self.settings.did_server.as_str());
                        self.state = BootstrapState::Publishing { did };
                        BootstrapAction::PostVid { url }
                    },
                    None => {
                        self.state = BootstrapState::Failed;
                        BootstrapAction::Fail {
                            error: TmcpError::Publication(
                                "the transport locator is not a valid URL".to_owned(),
                            ),
                        }
                    },
                }
            },
            DidType::Webvh => {
                let uuid = new_uuid();
                let username = make_username(self.alias.as_str(), uuid.as_str());
                let did_path = format_webvh_did_path(
                    self.settings.did_server.as_str(),
                    username.as_str(),
                );
                self.state = BootstrapState::AwaitingWebvh;
                BootstrapAction::CreateWebvh { did_path, transport }
            },
        }
    }

    /// A freshly verified identity enters the wallet and is bound to the
    /// local alias; the driver is then asked to persist the snapshot. On
    /// success the wallet holds the new identity's private keys and the alias
    /// resolves to it.
    fn take_verified_identity(&mut self, wallet: &mut Wallet, v: tsp_sdk::OwnedVid) -> (action:
        BootstrapAction)
        requires
            old(wallet).wf(),
        ensures
            final(wallet).wf(),
            final(self).settings == old(self).settings,
            final(self).alias@ == old(self).alias@,
            final(self).remote_did@ == old(self).remote_did@,
            (final(self).state is Persisting && kind_of(action) == ActionKind::Persist && final(wallet).vids_view().len() == old(wallet).vids_view().len() + 1 && final(wallet).private_view().len() == old(wallet).private_view().len() + 1 && contains_str(
                final(wallet).private_view(),
                final(self).state->Persisting_did@,
            ) && lookup_alias(
                final(wallet).aliases_view(),
                wallet_alias_spec(old(self).alias@, old(self).settings.use_webvh),
            ) == Some(final(self).state->Persisting_did@)) || (final(self).state is Failed
                && kind_of(action) == ActionKind::Fail),
            kind_of(action) == ActionKind::Fail ==> final(self).state is Failed,
    {
        let did = match wallet.add_private_identity(v) {
            Ok(did) => did,
            Err(e) => {
                self.state = BootstrapState::Failed;
                return BootstrapAction::Fail { error: e };
            },
        };
        let wa = wallet_alias(self.alias.as_str(), self.settings.use_webvh);
        match wallet.register_alias(wa.as_str(), did.as_str()) {
            Ok(_) => {},
            Err(e) => {
                self.state = BootstrapState::Failed;
                return BootstrapAction::Fail { error: e };
            },
        }
        proof {
            assert(contains_str(wallet.private_view(), did@));
        }
        self.state = BootstrapState::Persisting { did };
        BootstrapAction::Persist
    }
}

} // verus!
