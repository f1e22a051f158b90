use vstd::prelude::*;
use crate::errors::TmcpError;
use crate::strings::str_eq;
use tsp_sdk::VerifiedVid;

verus! {

#[verifier::external_type_specification]
#[verifier::external_body]
pub struct ExSecureStore(tsp_sdk::SecureStore);

#[verifier::external_type_specification]
#[verifier::external_body]
pub struct ExOwnedVid(tsp_sdk::OwnedVid);

#[verifier::external_type_specification]
#[verifier::external_body]
pub struct ExUrl(url::Url);

/// First binding of `name` in an alias table, oldest first.
pub open spec fn lookup_alias(aliases: Seq<(String, String)>, name: Seq<char>) -> Option<
    Seq<char>,
>
    decreases aliases.len(),
{
    if aliases.len() == 0 {
        None
    } else if aliases[0].0@ == name {
        Some(aliases[0].1@)
    } else {
        lookup_alias(aliases.drop_first(), name)
    }
}

pub open spec fn contains_str(v: Seq<String>, id: Seq<char>) -> bool {
    exists|i: int| 0 <= i < v.len() && v[i]@ == id
}

pub open spec fn unique_alias_names(aliases: Seq<(String, String)>) -> bool {
    forall|i: int, j: int| 0 <= i < j < aliases.len() ==> aliases[i].0@ != aliases[j].0@
}

pub proof fn lemma_lookup_skip(aliases: Seq<(String, String)>, name: Seq<char>, k: int)
    requires
        0 <= k <= aliases.len(),
        forall|i: int| 0 <= i < k ==> aliases[i].0@ != name,
    ensures
        lookup_alias(aliases, name) == lookup_alias(aliases.skip(k), name),
    decreases k,
{
    if k > 0 {
        assert(aliases[0].0@ != name);
        lemma_lookup_skip(aliases.drop_first(), name, k - 1);
        assert(aliases.drop_first().skip(k - 1) =~= aliases.skip(k));
    } else {
        assert(aliases.skip(0) =~= aliases);
    }
}

/// An alias resolves to nothing exactly when no entry carries its name.
pub proof fn lemma_lookup_none(aliases: Seq<(String, String)>, name: Seq<char>)
    ensures
        lookup_alias(aliases, name) is None <==> (forall|i: int|
            0 <= i < aliases.len() ==> aliases[i].0@ != name),
    decreases aliases.len(),
{
    if aliases.len() > 0 {
        lemma_lookup_none(aliases.drop_first(), name);
        if aliases[0].0@ == name {
            assert(aliases[0].0@ == name && 0 <= 0 < aliases.len());
        } else {
            if forall|i: int|
                0 <= i < aliases.drop_first().len() ==> aliases.drop_first()[i].0@ != name {
                assert forall|i: int| 0 <= i < aliases.len() implies aliases[i].0@ != name by {
                    if i > 0 {
                        assert(aliases.drop_first()[i - 1] == aliases[i]);
                    }
                }
            } else {
                let w = choose|w: int|
                    0 <= w < aliases.drop_first().len() && aliases.drop_first()[w].0@ == name;
                assert(aliases[w + 1].0@ == name);
            }
        }
    }
}

pub proof fn lemma_lookup_append(
    aliases: Seq<(String, String)>,
    name: Seq<char>,
    e: (String, String),
)
    requires
        lookup_alias(aliases, name) is None,
        e.0@ == name,
    ensures
        lookup_alias(aliases.push(e), name) == Some(e.1@),
    decreases aliases.len(),
{
    if aliases.len() == 0 {
        assert(aliases.push(e)[0] == e);
    } else {
        assert(aliases.push(e)[0] == aliases[0]);
        lemma_lookup_append(aliases.drop_first(), name, e);
        assert(aliases.push(e).drop_first() =~= aliases.drop_first().push(e));
    }
}

/// Relies on tsp_sdk's SecureStore::new: a fresh store holding no identities,
/// no aliases and no key material.
#[verifier::external_body]
fn store_new() -> tsp_sdk::SecureStore {
    tsp_sdk::SecureStore::new()
}

/// Relies on tsp_sdk's SecureStore::set_relation_and_status_for_vid: records
/// an established relationship between the remote and the local VID, so that
/// application messages opened from the remote are accepted.
#[verifier::external_body]
fn store_set_relation(store: &tsp_sdk::SecureStore, remote: &str, local: &str) -> (r: Result<
    (),
    String,
>) {
    store.set_relation_and_status_for_vid(
        remote,
        tsp_sdk::RelationshipStatus::Unidirectional { invite_digest: [0u8; 32] },
        local,
    ).map_err(|e| format!("{e}"))
}

/// Relies on tsp_sdk's SecureStore::set_alias: binds the name to the DID in
/// the store's alias table.
#[verifier::external_body]
fn store_set_alias(store: &tsp_sdk::SecureStore, alias: &str, did: &str) -> (r: Result<
    (),
    String,
>) {
    store.set_alias(alias.to_owned(), did.to_owned()).map_err(|e| format!("{e}"))
}

/// Relies on tsp_sdk's SecureStore::add_private_vid: stores the identity and
/// copies its keys into the store's secure area.
#[verifier::external_body]
fn store_add_private_vid(store: &tsp_sdk::SecureStore, vid: tsp_sdk::OwnedVid) -> (r: Result<
    (),
    String,
>) {
    store.add_private_vid(vid, None).map_err(|e| format!("{e}"))
}

/// Relies on tsp_sdk's OwnedVid::identifier: the DID this identity is named
/// by.
#[verifier::external_body]
pub(crate) fn vid_identifier(vid: &tsp_sdk::OwnedVid) -> (r: String) {
    vid.identifier().to_owned()
}

#[verifier::external_type_specification]
#[verifier::external_body]
pub struct ExVid(tsp_sdk::Vid);

/// Relies on tsp_sdk's Vid::identifier: the DID a verified identity is named
/// by.
#[verifier::external_body]
fn verified_vid_identifier(vid: &tsp_sdk::Vid) -> (r: String) {
    vid.identifier().to_owned()
}

/// Relies on tsp_sdk's SecureStore::add_verified_vid: stores the resolved
/// public key material of a peer as a relationship.
#[verifier::external_body]
fn store_add_verified_vid(store: &tsp_sdk::SecureStore, vid: tsp_sdk::Vid) -> (r: Result<
    (),
    String,
>) {
    store.add_verified_vid(vid, None).map_err(|e| format!("{e}"))
}

/// Whether url's parser accepts a string as an absolute URL. A function of
/// the string alone.
pub uninterp spec fn url_ok(s: Seq<char>) -> bool;

/// Relies on url's Url::parse: succeeds exactly on a well-formed URL.
#[verifier::external_body]
pub(crate) fn parse_url(s: &str) -> (r: Option<url::Url>)
    ensures
        r is Some <==> url_ok(s@),
{
    url::Url::parse(s).ok()
}

/// Relies on tsp_sdk's OwnedVid::new_did_peer: derives a fresh `did:peer`
/// identity, with fresh keys, bound to the transport; no network is touched.
#[verifier::external_body]
pub(crate) fn make_peer_vid(transport: &url::Url) -> (r: tsp_sdk::OwnedVid) {
    tsp_sdk::OwnedVid::new_did_peer(transport.clone())
}

/// Relies on tsp_sdk's OwnedVid::bind: an identity under the given DID, with
/// fresh keys, bound to the transport; no network is touched.
#[verifier::external_body]
pub(crate) fn make_bound_vid(did: &str, transport: &url::Url) -> (r: tsp_sdk::OwnedVid) {
    tsp_sdk::OwnedVid::bind(did, transport.clone())
}

/// A snapshot of what the wallet knows: each identifier with whether it is
/// private, and the alias table. Key material never leaves the store's
/// secure area, so a snapshot carries none.
#[derive(Debug, Clone)]
pub struct WalletSnapshot {
    pub vids: Vec<(String, bool)>,
    pub aliases: Vec<(String, String)>,
}

pub open spec fn snap_contains(vids: Seq<(String, bool)>, id: Seq<char>) -> bool {
    exists|i: int| 0 <= i < vids.len() && vids[i].0@ == id
}

/// A snapshot is well formed when alias names are unique and every alias
/// references an identity present in the same snapshot.
pub open spec fn snapshot_wf(vids: Seq<(String, bool)>, aliases: Seq<(String, String)>) -> bool {
    unique_alias_names(aliases) && (forall|i: int|
        0 <= i < aliases.len() ==> snap_contains(vids, aliases[i].1@))
}

/// Whether a snapshot lists an identifier.
fn snap_has_vid(vids: &Vec<(String, bool)>, id: &str) -> (r: bool)
    ensures
        r == snap_contains(vids@, id@),
{
    let n: usize = vids.len();
    let mut k: usize = 0;
    while k < n
        invariant
            n == vids@.len(),
            k <= n,
            forall|j: int| 0 <= j < k ==> vids@[j].0@ != id@,
        decreases n - k,
    {
        if str_eq(vids[k].0.as_str(), id) {
            return true;
        }
        k += 1;
    }
    false
}

/// The wallet facade: the identity set, alias table and private-key set held
/// in memory, over the secure store that does the cryptography.
pub struct Wallet {
    store: tsp_sdk::SecureStore,
    vids: Vec<String>,
    private_vids: Vec<String>,
    aliases: Vec<(String, String)>,
}

impl Wallet {
    /// Identifiers known to the wallet.
    pub closed spec fn vids_view(self) -> Seq<String> {
        self.vids@
    }

    /// Identifiers the wallet holds private keys for.
    pub closed spec fn private_view(self) -> Seq<String> {
        self.private_vids@
    }

    /// The alias table, oldest binding first.
    pub closed spec fn aliases_view(self) -> Seq<(String, String)> {
        self.aliases@
    }

    /// Alias names are unique, every alias references a known identifier,
    /// and every private identifier is known.
    pub open spec fn wf(self) -> bool {
        &&& unique_alias_names(self.aliases_view())
        &&& (forall|i: int|
            0 <= i < self.aliases_view().len() ==> contains_str(
                self.vids_view(),
                self.aliases_view()[i].1@,
            ))
        &&& (forall|i: int|
            0 <= i < self.private_view().len() ==> contains_str(
                self.vids_view(),
                self.private_view()[i]@,
            ))
    }

    /// A fresh, empty wallet.
    pub fn new() -> (r: Wallet)
        ensures
            r.wf(),
            r.vids_view().len() == 0,
            r.private_view().len() == 0,
            r.aliases_view().len() == 0,
    {
        Wallet {
            store: store_new(),
            vids: Vec::new(),
            private_vids: Vec::new(),
            aliases: Vec::new(),
        }
    }

    /// The underlying secure store, for the callers that drive it directly.
    pub fn store(&self) -> &tsp_sdk::SecureStore {
        &self.store
    }

    /// The identifier the alias resolves to, if any.
    pub fn resolve_alias(&self, alias: &str) -> (r: Option<String>)
        ensures
            r matches Some(did) ==> lookup_alias(self.aliases_view(), alias@) == Some(did@),
            r is None ==> lookup_alias(self.aliases_view(), alias@) is None,
    {
        let n: usize = self.aliases.len();
        let mut k: usize = 0;
        while k < n
            invariant
                n == self.aliases@.len(),
                k <= n,
                forall|j: int| 0 <= j < k ==> self.aliases@[j].0@ != alias@,
            decreases n - k,
        {
            if str_eq(self.aliases[k].0.as_str(), alias) {
                let did = self.aliases[k].1.clone();
                proof {
                    lemma_lookup_skip(self.aliases@, alias@, k as int);
                    assert(self.aliases@.skip(k as int)[0] == self.aliases@[k as int]);
                }
                return Some(did);
            }
            k += 1;
        }
        proof {
            lemma_lookup_skip(self.aliases@, alias@, n as int);
            assert(self.aliases@.skip(n as int).len() == 0);
        }
        None
    }

    /// Whether the wallet holds private keys for this identifier.
    pub fn has_private_vid(&self, did: &str) -> (r: bool)
        ensures
            r == contains_str(self.private_view(), did@),
    {
        let n: usize = self.private_vids.len();
        let mut k: usize = 0;
        while k < n
            invariant
                n == self.private_vids@.len(),
                k <= n,
                forall|j: int| 0 <= j < k ==> self.private_vids@[j]@ != did@,
            decreases n - k,
        {
            if str_eq(self.private_vids[k].as_str(), did) {
                return true;
            }
            k += 1;
        }
        false
    }

    /// Whether the wallet knows this identifier at all.
    pub fn has_vid(&self, did: &str) -> (r: bool)
        ensures
            r == contains_str(self.vids_view(), did@),
    {
        let n: usize = self.vids.len();
        let mut k: usize = 0;
        while k < n
            invariant
                n == self.vids@.len(),
                k <= n,
                forall|j: int| 0 <= j < k ==> self.vids@[j]@ != did@,
            decreases n - k,
        {
            if str_eq(self.vids[k].as_str(), did) {
                return true;
            }
            k += 1;
        }
        false
    }

    /// Bind `alias` to `did`.
    ///
    /// A name already bound to a different identifier is refused with a store
    /// error; re-registering the same identifier is a no-op; a fresh name is
    /// appended. The identity set is never touched.
    pub fn register_alias(&mut self, alias: &str, did: &str) -> (r: Result<(), TmcpError>)
        requires
            old(self).wf(),
            contains_str(old(self).vids_view(), did@),
        ensures
            final(self).wf(),
            final(self).vids_view() == old(self).vids_view(),
            final(self).private_view() == old(self).private_view(),
            (lookup_alias(old(self).aliases_view(), alias@) matches Some(e) && e == did@) ==> (r
                is Ok && final(self).aliases_view() == old(self).aliases_view()),
            (lookup_alias(old(self).aliases_view(), alias@) matches Some(e) && e != did@) ==> (r
                is Err && final(self).aliases_view() == old(self).aliases_view()),
            r matches Err(e) ==> e is Store,
            lookup_alias(old(self).aliases_view(), alias@) is None ==> ((r is Ok ==> {
                &&& final(self).aliases_view().len() == old(self).aliases_view().len() + 1
                &&& final(self).aliases_view().subrange(0, old(self).aliases_view().len() as int)
                    =~= old(self).aliases_view()
                &&& final(self).aliases_view().last().0@ == alias@
                &&& final(self).aliases_view().last().1@ == did@
                &&& lookup_alias(final(self).aliases_view(), alias@) == Some(did@)
            }) && (r is Err ==> final(self).aliases_view() == old(self).aliases_view())),
    {
        match self.resolve_alias(alias) {
            Some(existing) => {
                if str_eq(existing.as_str(), did) {
                    Ok(())
                } else {
                    Err(
                        TmcpError::Store(
                            "alias is already bound to a different identifier".to_owned(),
                        ),
                    )
                }
            },
            None => {
                match store_set_alias(&self.store, alias, did) {
                    Ok(_) => {
                        let entry = (alias.to_owned(), did.to_owned());
                        self.aliases.push(entry);
                        proof {
                            let a0 = old(self).aliases_view();
                            let a1 = self.aliases_view();
                            assert(a1 =~= a0.push(entry));
                            lemma_lookup_none(a0, alias@);
                            lemma_lookup_append(a0, alias@, entry);
                            assert forall|i: int, j: int| 0 <= i < j < a1.len() implies a1[i].0@
                                != a1[j].0@ by {
                                if j < a0.len() {
                                    assert(a1[i] == a0[i]);
                                    assert(a1[j] == a0[j]);
                                } else {
                                    assert(a1[j] == entry);
                                    assert(a1[i] == a0[i]);
                                    assert(a0[i].0@ != alias@);
                                }
                            }
                            assert forall|i: int| 0 <= i < a1.len() implies contains_str(
                                self.vids_view(),
                                a1[i].1@,
                            ) by {
                                if i < a0.len() {
                                    assert(a1[i] == a0[i]);
                                    assert(contains_str(old(self).vids_view(), a0[i].1@));
                                } else {
                                    assert(a1[i] == entry);
                                    assert(contains_str(old(self).vids_view(), did@));
                                }
                                assert(self.vids_view() == old(self).vids_view());
                            }
                            assert(a1.subrange(0, a0.len() as int) =~= a0);
                            assert forall|i: int|
                                0 <= i < self.private_view().len() implies contains_str(
                                self.vids_view(),
                                self.private_view()[i]@,
                            ) by {
                                assert(self.private_view() == old(self).private_view());
                                assert(self.vids_view() == old(self).vids_view());
                                assert(contains_str(
                                    old(self).vids_view(),
                                    old(self).private_view()[i]@,
                                ));
                            }
                        }
                        Ok(())
                    },
                    Err(m) => Err(TmcpError::Store(m)),
                }
            },
        }
    }

    /// Take ownership of a created identity: its keys move into the store's
    /// secure area and its identifier becomes known and private.
    pub fn add_private_identity(&mut self, vid: tsp_sdk::OwnedVid) -> (r: Result<
        String,
        TmcpError,
    >)
        requires
            old(self).wf(),
        ensures
            final(self).wf(),
            final(self).aliases_view() == old(self).aliases_view(),
            r matches Ok(did) ==> {
                &&& final(self).vids_view().len() == old(self).vids_view().len() + 1
                &&& final(self).vids_view().subrange(0, old(self).vids_view().len() as int) =~= old(self).vids_view()
                &&& final(self).vids_view().last()@ == did@
                &&& contains_str(final(self).vids_view(), did@)
                &&& final(self).private_view().len() == old(self).private_view().len() + 1
                &&& final(self).private_view().subrange(0, old(self).private_view().len() as int) =~= old(self).private_view()
                &&& final(self).private_view().last()@ == did@
            },
            r is Err ==> final(self).vids_view() == old(self).vids_view() && final(self).private_view() == old(self).private_view(),
            r matches Err(e) ==> e is TspError,
    {
        let did = vid_identifier(&vid);
        match store_add_private_vid(&self.store, vid) {
            Ok(_) => {
                let did2 = did.clone();
                self.vids.push(did2);
                self.private_vids.push(did.clone());
                proof {
                    let v0 = old(self).vids_view();
                    let v1 = self.vids_view();
                    let p0 = old(self).private_view();
                    let p1 = self.private_view();
                    assert(v1.last()@ == did@);
                    assert(contains_str(v1, did@));
                    assert forall|i: int| 0 <= i < self.aliases_view().len() implies contains_str(
                        v1,
                        self.aliases_view()[i].1@,
                    ) by {
                        assert(self.aliases_view() == old(self).aliases_view());
                        assert(contains_str(v0, old(self).aliases_view()[i].1@));
                        let w = choose|w: int|
                            0 <= w < v0.len() && v0[w]@ == old(self).aliases_view()[i].1@;
                        assert(v1[w] == v0[w]);
                        assert(contains_str(v1, self.aliases_view()[i].1@));
                    }
                    assert forall|i: int| 0 <= i < p1.len() implies contains_str(v1, p1[i]@) by {
                        if i < p0.len() {
                            assert(p1[i] == p0[i]);
                            assert(contains_str(v0, p0[i]@));
                            let w = choose|w: int| 0 <= w < v0.len() && v0[w]@ == p0[i]@;
                            assert(v1[w] == v0[w]);
                            assert(contains_str(v1, p1[i]@));
                        } else {
                            assert(p1[i] == p1.last());
                            assert(p1.last()@ == did@);
                            assert(contains_str(v1, p1[i]@));
                        }
                    }
                    assert(v1.subrange(0, v0.len() as int) =~= v0);
                    assert(p1.subrange(0, p0.len() as int) =~= p0);
                }
                Ok(did)
            },
            Err(m) => Err(TmcpError::TspError(m)),
        }
    }

    /// Take a resolved and verified peer identity into the wallet: its public
    /// key material enters the store, and its identifier becomes known.
    pub fn add_verified_identity(&mut self, vid: tsp_sdk::Vid) -> (r: Result<String, TmcpError>)
        requires
            old(self).wf(),
        ensures
            final(self).wf(),
            final(self).aliases_view() == old(self).aliases_view(),
            final(self).private_view() == old(self).private_view(),
            r matches Ok(did) ==> {
                &&& final(self).vids_view().len() == old(self).vids_view().len() + 1
                &&& final(self).vids_view().subrange(0, old(self).vids_view().len() as int) =~= old(
                    self,
                ).vids_view()
                &&& final(self).vids_view().last()@ == did@
                &&& contains_str(final(self).vids_view(), did@)
            },
            r is Err ==> final(self).vids_view() == old(self).vids_view(),
            r matches Err(e) ==> e is TspError,
    {
        let did = verified_vid_identifier(&vid);
        match store_add_verified_vid(&self.store, vid) {
            Ok(_) => {
                self.vids.push(did.clone());
                proof {
                    let v0 = old(self).vids_view();
                    let v1 = self.vids_view();
                    assert(v1.last()@ == did@);
                    assert(contains_str(v1, did@));
                    assert forall|i: int| 0 <= i < self.aliases_view().len() implies contains_str(
                        v1,
                        self.aliases_view()[i].1@,
                    ) by {
                        assert(contains_str(v0, old(self).aliases_view()[i].1@));
                        let w = choose|w: int|
                            0 <= w < v0.len() && v0[w]@ == old(self).aliases_view()[i].1@;
                        assert(v1[w] == v0[w]);
                    }
                    assert forall|i: int| 0 <= i < self.private_view().len() implies contains_str(
                        v1,
                        self.private_view()[i]@,
                    ) by {
                        assert(contains_str(v0, old(self).private_view()[i]@));
                        let w = choose|w: int|
                            0 <= w < v0.len() && v0[w]@ == old(self).private_view()[i]@;
                        assert(v1[w] == v0[w]);
                    }
                    assert(v1.subrange(0, v0.len() as int) =~= v0);
                }
                Ok(did)
            },
            Err(m) => Err(TmcpError::TspError(m)),
        }
    }

    /// Record that the local and remote identifiers stand in an established
    /// relationship, so inbound application messages from the remote are
    /// accepted when opened.
    pub fn set_relation(&mut self, remote: &str, local: &str) -> (r: Result<(), TmcpError>)
        requires
            old(self).wf(),
        ensures
            final(self).wf(),
            final(self).vids_view() == old(self).vids_view(),
            final(self).private_view() == old(self).private_view(),
            final(self).aliases_view() == old(self).aliases_view(),
            r matches Err(e) ==> e is Store,
    {
        match store_set_relation(&self.store, remote, local) {
            Ok(_) => Ok(()),
            Err(m) => Err(TmcpError::Store(m)),
        }
    }

    /// Restore the wallet's tables from a snapshot.
    ///
    /// A malformed snapshot — one with a dangling alias, or with a duplicated
    /// alias name — is refused whole with an import error, and the wallet is
    /// left as it was. Key material never travels in snapshots: a private
    /// identity regains keys only through [`Wallet::add_private_identity`].
    #[verifier::loop_isolation(false)]
    pub fn import(&mut self, snap: &WalletSnapshot) -> (r: Result<(), TmcpError>)
        requires
            old(self).wf(),
        ensures
            final(self).wf(),
            r is Ok <==> snapshot_wf(snap.vids@, snap.aliases@),
            r matches Err(e) ==> e is ImportError,
            r is Err ==> (final(self).vids_view() == old(self).vids_view() && final(self).private_view() == old(self).private_view() && final(self).aliases_view() == old(self).aliases_view()),
            r is Ok ==> ({
                &&& final(self).vids_view().len() == snap.vids@.len()
                &&& (forall|i: int|
                    0 <= i < snap.vids@.len() ==> final(self).vids_view()[i]@ == snap.vids@[i].0@)
                &&& final(self).aliases_view().len() == snap.aliases@.len()
                &&& (forall|i: int|
                    0 <= i < snap.aliases@.len() ==> (final(self).aliases_view()[i].0@
                        == snap.aliases@[i].0@ && final(self).aliases_view()[i].1@
                        == snap.aliases@[i].1@))
            }),
    {
        let n: usize = snap.aliases.len();
        let mut i: usize = 0;
        while i < n
            invariant
                n == snap.aliases@.len(),
                i <= n,
                forall|a: int, b: int|
                    0 <= a < b < snap.aliases@.len() && a < i ==> snap.aliases@[a].0@
                        != snap.aliases@[b].0@,
            decreases n - i,
        {
            let mut j: usize = i + 1;
            while j < n
                invariant
                    n == snap.aliases@.len(),
                    i < j || j == i + 1,
                    i < n,
                    i + 1 <= j <= n,
                    forall|b: int| i < b < j ==> snap.aliases@[i as int].0@ != snap.aliases@[b].0@,
                decreases n - j,
            {
                if str_eq(snap.aliases[i].0.as_str(), snap.aliases[j].0.as_str()) {
                    proof {
                        assert(snap.aliases@[i as int].0@ == snap.aliases@[j as int].0@);
                        assert(!unique_alias_names(snap.aliases@));
                    }
                    return Err(
                        TmcpError::ImportError("snapshot repeats an alias name".to_owned()),
                    );
                }
                j += 1;
            }
            i += 1;
        }
        let mut k: usize = 0;
        while k < n
            invariant
                n == snap.aliases@.len(),
                k <= n,
                forall|a: int| 0 <= a < k ==> snap_contains(snap.vids@, snap.aliases@[a].1@),
            decreases n - k,
        {
            if !snap_has_vid(&snap.vids, snap.aliases[k].1.as_str()) {
                proof {
                    assert(!snapshot_wf(snap.vids@, snap.aliases@));
                }
                return Err(
                    TmcpError::ImportError(
                        "snapshot has an alias for an absent identity".to_owned(),
                    ),
                );
            }
            k += 1;
        }
        let m: usize = snap.vids.len();
        let mut vids: Vec<String> = Vec::new();
        let mut private_vids: Vec<String> = Vec::new();
        let mut v: usize = 0;
        while v < m
            invariant
                m == snap.vids@.len(),
                v <= m,
                vids@.len() == v,
                forall|a: int| 0 <= a < v ==> vids@[a]@ == snap.vids@[a].0@,
                forall|a: int|
                    0 <= a < private_vids@.len() ==> contains_str(vids@, private_vids@[a]@),
            decreases m - v,
        {
            let name = snap.vids[v].0.clone();
            let ghost prev_v = vids@;
            let ghost prev_p = private_vids@;
            vids.push(name.clone());
            if snap.vids[v].1 {
                private_vids.push(name);
            }
            proof {
                assert forall|a: int|
                    0 <= a < private_vids@.len() implies contains_str(vids@, private_vids@[a]@) by {
                    if a < prev_p.len() {
                        assert(private_vids@[a] == prev_p[a]);
                        assert(contains_str(prev_v, prev_p[a]@));
                        let w = choose|w: int| 0 <= w < prev_v.len() && prev_v[w]@ == prev_p[a]@;
                        assert(vids@[w] == prev_v[w]);
                    } else {
                        assert(vids@[vids@.len() - 1]@ == private_vids@[a]@);
                    }
                }
            }
            v += 1;
        }
        let mut aliases: Vec<(String, String)> = Vec::new();
        let mut t: usize = 0;
        while t < n
            invariant
                n == snap.aliases@.len(),
                t <= n,
                aliases@.len() == t,
                forall|a: int|
                    0 <= a < t ==> (aliases@[a].0@ == snap.aliases@[a].0@ && aliases@[a].1@
                        == snap.aliases@[a].1@),
            decreases n - t,
        {
            aliases.push((snap.aliases[t].0.clone(), snap.aliases[t].1.clone()));
            t += 1;
        }
        self.vids = vids;
        self.private_vids = private_vids;
        self.aliases = aliases;
        proof {
            assert forall|a: int, b: int|
                0 <= a < b < self.aliases_view().len() implies self.aliases_view()[a].0@
                != self.aliases_view()[b].0@ by {
                assert(self.aliases_view()[a].0@ == snap.aliases@[a].0@);
                assert(self.aliases_view()[b].0@ == snap.aliases@[b].0@);
            }
            assert forall|a: int| 0 <= a < self.aliases_view().len() implies contains_str(
                self.vids_view(),
                self.aliases_view()[a].1@,
            ) by {
                assert(snap_contains(snap.vids@, snap.aliases@[a].1@));
                let w = choose|w: int|
                    0 <= w < snap.vids@.len() && snap.vids@[w].0@ == snap.aliases@[a].1@;
                assert(self.vids_view()[w]@ == snap.vids@[w].0@);
            }
            assert(snapshot_wf(snap.vids@, snap.aliases@));
        }
        Ok(())
    }

    /// The wallet's contents as a snapshot.
    pub fn export(&self) -> (r: WalletSnapshot)
        requires
            self.wf(),
        ensures
            r.vids@.len() == self.vids_view().len(),
            forall|i: int|
                0 <= i < r.vids@.len() ==> r.vids@[i].0@ == self.vids_view()[i]@ && r.vids@[i].1
                    == contains_str(self.private_view(), self.vids_view()[i]@),
            r.aliases@.len() == self.aliases_view().len(),
            forall|i: int|
                0 <= i < r.aliases@.len() ==> r.aliases@[i].0@ == self.aliases_view()[i].0@
                    && r.aliases@[i].1@ == self.aliases_view()[i].1@,
    {
        let n: usize = self.vids.len();
        let mut vids: Vec<(String, bool)> = Vec::new();
        let mut k: usize = 0;
        while k < n
            invariant
                n == self.vids@.len(),
                k <= n,
                vids@.len() == k,
                forall|i: int|
                    0 <= i < k ==> vids@[i].0@ == self.vids@[i]@ && vids@[i].1 == contains_str(
                        self.private_vids@,
                        self.vids@[i]@,
                    ),
            decreases n - k,
        {
            let name = self.vids[k].clone();
            let private = self.has_private_vid(name.as_str());
            vids.push((name, private));
            k += 1;
        }
        let m: usize = self.aliases.len();
        let mut aliases: Vec<(String, String)> = Vec::new();
        let mut j: usize = 0;
        while j < m
            invariant
                m == self.aliases@.len(),
                j <= m,
                aliases@.len() == j,
                forall|i: int|
                    0 <= i < j ==> aliases@[i].0@ == self.aliases@[i].0@ && aliases@[i].1@
                        == self.aliases@[i].1@,
            decreases m - j,
        {
            aliases.push((self.aliases[j].0.clone(), self.aliases[j].1.clone()));
            j += 1;
        }
        WalletSnapshot { vids, aliases }
    }
}

} // verus!
