//! Account records and their store.
//!
//! An account is the plain configuration record a worker is started from:
//! a unique name, a network, connection endpoints and the two listening
//! ports, kept as the caller entered them. The store holds the records in
//! insertion order, one per name, each under an identifier no other record
//! ever had. Reading the records back from disk and writing them out is
//! the caller's business; the store carries the rules.

use vstd::prelude::*;
use crate::config::join_path;

verus! {

/// One stored account configuration.
pub struct Account {
    pub id: i32,
    pub name: String,
    pub network: String,
    pub datapath: Option<String>,
    pub rpc_connection_url: String,
    pub node_url: String,
    pub indexer_url: String,
    pub proxy_endpoint: String,
    pub default_lsp_url: String,
    pub maker_urls: String,
    pub default_maker_url: String,
    pub daemon_listening_port: String,
    pub ldk_peer_listening_port: String,
}

impl Clone for Account {
    fn clone(&self) -> (r: Account)
        ensures
            r == *self,
    {
        Account {
            id: self.id,
            name: self.name.clone(),
            network: self.network.clone(),
            datapath: match &self.datapath {
                Some(path) => Some(path.clone()),
                None => None,
            },
            rpc_connection_url: self.rpc_connection_url.clone(),
            node_url: self.node_url.clone(),
            indexer_url: self.indexer_url.clone(),
            proxy_endpoint: self.proxy_endpoint.clone(),
            default_lsp_url: self.default_lsp_url.clone(),
            maker_urls: self.maker_urls.clone(),
            default_maker_url: self.default_maker_url.clone(),
            daemon_listening_port: self.daemon_listening_port.clone(),
            ldk_peer_listening_port: self.ldk_peer_listening_port.clone(),
        }
    }
}

/// Why the store refused a change.
#[derive(Debug, PartialEq, Eq, Structural)]
pub enum StoreError {
    /// An account with this name already exists.
    DuplicateName,
    /// Every identifier has been handed out.
    Full,
}

/// Whether some record carries this name.
pub open spec fn has_name(accounts: Seq<Account>, name: Seq<char>) -> bool {
    exists|i: int| 0 <= i < accounts.len() && accounts[i].name@ == name
}

/// Whether a record carries exactly these configuration fields (everything
/// but identifier and name).
pub open spec fn fields_match(
    a: Account,
    network: Seq<char>,
    datapath: Option<Seq<char>>,
    rpc_connection_url: Seq<char>,
    node_url: Seq<char>,
    indexer_url: Seq<char>,
    proxy_endpoint: Seq<char>,
    default_lsp_url: Seq<char>,
    maker_urls: Seq<char>,
    default_maker_url: Seq<char>,
    daemon_listening_port: Seq<char>,
    ldk_peer_listening_port: Seq<char>,
) -> bool {
    &&& a.network@ == network
    &&& a.datapath.deep_view() == datapath
    &&& a.rpc_connection_url@ == rpc_connection_url
    &&& a.node_url@ == node_url
    &&& a.indexer_url@ == indexer_url
    &&& a.proxy_endpoint@ == proxy_endpoint
    &&& a.default_lsp_url@ == default_lsp_url
    &&& a.maker_urls@ == maker_urls
    &&& a.default_maker_url@ == default_maker_url
    &&& a.daemon_listening_port@ == daemon_listening_port
    &&& a.ldk_peer_listening_port@ == ldk_peer_listening_port
}

/// The account records, one per name, in insertion order.
pub struct AccountStore {
    accounts: Vec<Account>,
    next_id: i32,
}

impl View for AccountStore {
    type V = Seq<Account>;

    closed spec fn view(&self) -> Seq<Account> {
        self.accounts@
    }
}

impl AccountStore {
    /// Names are unique; identifiers were handed out in increasing order
    /// and the next one is above them all.
    pub closed spec fn wf(&self) -> bool {
        &&& forall|i: int, j: int|
            0 <= i < j < self.accounts@.len() ==> self.accounts@[i].name@ != self.accounts@[j].name@
        &&& forall|i: int, j: int|
            0 <= i < j < self.accounts@.len() ==> self.accounts@[i].id < self.accounts@[j].id
        &&& forall|i: int|
            0 <= i < self.accounts@.len() ==> #[trigger] self.accounts@[i].id < self.next_id
        &&& self.next_id >= 1
    }

    /// An empty store; the first record will get identifier one.
    pub fn new() -> (r: AccountStore)
        ensures
            r@ == Seq::<Account>::empty(),
            r.wf(),
    {
        AccountStore { accounts: Vec::new(), next_id: 1 }
    }

    /// The index of the record carrying this name, if any.
    fn find_by_name(&self, name: &str) -> (r: Option<usize>)
        ensures
            r matches Some(i) ==> 0 <= i < self@.len() && self@[i as int].name@ == name@,
            r is None ==> !has_name(self@, name@),
    {
        let needle = name.to_owned();
        let mut j: usize = 0;
        while j < self.accounts.len()
            invariant
                j <= self@.len(),
                needle@ == name@,
                forall|k: int| 0 <= k < j ==> self@[k].name@ != name@,
            decreases self@.len() - j,
        {
            if self.accounts[j].name.eq(&needle) {
                return Some(j);
            }
            j += 1;
        }
        None
    }

    /// All records, in insertion order.
    pub fn get_accounts(&self) -> (r: Vec<Account>)
        ensures
            r@ == self@,
    {
        let mut out: Vec<Account> = Vec::new();
        let mut i: usize = 0;
        while i < self.accounts.len()
            invariant
                i <= self@.len(),
                out@ == self@.take(i as int),
            decreases self@.len() - i,
        {
            out.push(self.accounts[i].clone());
            proof {
                assert(out@ =~= self@.take(i + 1));
            }
            i += 1;
        }
        proof {
            assert(self@.take(self@.len() as int) =~= self@);
        }
        out
    }

    /// The record carrying this name, if any.
    pub fn get_account_by_name(&self, name: &str) -> (r: Option<Account>)
        ensures
            r is Some <==> has_name(self@, name@),
            r matches Some(a) ==> (exists|i: int|
                0 <= i < self@.len() && self@[i] == a) && a.name@ == name@,
    {
        match self.find_by_name(name) {
            Some(i) => Some(self.accounts[i].clone()),
            None => None,
        }
    }

    /// Whether a record with this name exists.
    pub fn check_account_exists(&self, name: &str) -> (r: bool)
        ensures
            r == has_name(self@, name@),
    {
        self.find_by_name(name).is_some()
    }

    /// Appends a new record under a fresh identifier.
    ///
    /// Refused exactly when the name is already taken (or, at the machine
    /// limit, when every identifier has been handed out). On success the
    /// count of changed rows — always one — is returned, every existing
    /// record is untouched, and the new record sits at the end with an
    /// identifier no other record has.
    pub fn insert_account(
        &mut self,
        name: String,
        network: String,
        datapath: Option<String>,
        rpc_connection_url: String,
        node_url: String,
        indexer_url: String,
        proxy_endpoint: String,
        default_lsp_url: String,
        maker_urls: String,
        default_maker_url: String,
        daemon_listening_port: String,
        ldk_peer_listening_port: String,
    ) -> (r: Result<usize, StoreError>)
        requires
            old(self).wf(),
        ensures
            final(self).wf(),
            r == Err::<usize, StoreError>(StoreError::DuplicateName) <==> has_name(
                old(self)@,
                name@,
            ),
            r is Err ==> final(self)@ == old(self)@,
            r is Ok ==> ({
                &&& r == Ok::<usize, StoreError>(1usize)
                &&& final(self)@.len() == old(self)@.len() + 1
                &&& forall|i: int| 0 <= i < old(self)@.len() ==> final(self)@[i] == old(self)@[i]
                &&& final(self)@.last().name@ == name@
                &&& fields_match(
                    final(self)@.last(),
                    network@,
                    datapath.deep_view(),
                    rpc_connection_url@,
                    node_url@,
                    indexer_url@,
                    proxy_endpoint@,
                    default_lsp_url@,
                    maker_urls@,
                    default_maker_url@,
                    daemon_listening_port@,
                    ldk_peer_listening_port@,
                )
                &&& forall|i: int|
                    0 <= i < old(self)@.len() ==> final(self)@.last().id != old(self)@[i].id
            }),
    {
        if self.find_by_name(name.as_str()).is_some() {
            return Err(StoreError::DuplicateName);
        }
        if self.next_id == i32::MAX {
            return Err(StoreError::Full);
        }
        let account = Account {
            id: self.next_id,
            name,
            network,
            datapath,
            rpc_connection_url,
            node_url,
            indexer_url,
            proxy_endpoint,
            default_lsp_url,
            maker_urls,
            default_maker_url,
            daemon_listening_port,
            ldk_peer_listening_port,
        };
        self.next_id = self.next_id + 1;
        self.accounts.push(account);
        Ok(1)
    }

    /// Rewrites the configuration fields of the record carrying this name,
    /// leaving its identifier and name alone, and reports how many records
    /// changed: one when the name was found, none otherwise.
    pub fn update_account(
        &mut self,
        name: String,
        network: String,
        datapath: Option<String>,
        rpc_connection_url: String,
        node_url: String,
        indexer_url: String,
        proxy_endpoint: String,
        default_lsp_url: String,
        maker_urls: String,
        default_maker_url: String,
        daemon_listening_port: String,
        ldk_peer_listening_port: String,
    ) -> (r: usize)
        requires
            old(self).wf(),
        ensures
            final(self).wf(),
            r == 1usize <==> has_name(old(self)@, name@),
            r == 0usize <==> !has_name(old(self)@, name@),
            !has_name(old(self)@, name@) ==> final(self)@ == old(self)@,
            final(self)@.len() == old(self)@.len(),
            forall|i: int|
                0 <= i < old(self)@.len() && old(self)@[i].name@ != name@ ==> final(self)@[i]
                    == old(self)@[i],
            forall|i: int|
                0 <= i < old(self)@.len() && old(self)@[i].name@ == name@ ==> ({
                    &&& final(self)@[i].id == old(self)@[i].id
                    &&& final(self)@[i].name == old(self)@[i].name
                    &&& fields_match(
                        final(self)@[i],
                        network@,
                        datapath.deep_view(),
                        rpc_connection_url@,
                        node_url@,
                        indexer_url@,
                        proxy_endpoint@,
                        default_lsp_url@,
                        maker_urls@,
                        default_maker_url@,
                        daemon_listening_port@,
                        ldk_peer_listening_port@,
                    )
                }),
    {
        match self.find_by_name(name.as_str()) {
            Some(i) => {
                let kept_id = self.accounts[i].id;
                let kept_name = self.accounts[i].name.clone();
                let updated = Account {
                    id: kept_id,
                    name: kept_name,
                    network,
                    datapath,
                    rpc_connection_url,
                    node_url,
                    indexer_url,
                    proxy_endpoint,
                    default_lsp_url,
                    maker_urls,
                    default_maker_url,
                    daemon_listening_port,
                    ldk_peer_listening_port,
                };
                self.accounts.set(i, updated);
                1
            },
            None => 0,
        }
    }

    /// Removes the record carrying this name, closing the gap, and reports
    /// how many records went: one when the name was found, none otherwise.
    /// Removing the record's data directory from disk, when it has one, is
    /// the caller's business.
    pub fn delete_account(&mut self, name: &str) -> (r: usize)
        requires
            old(self).wf(),
        ensures
            final(self).wf(),
            r == 1usize <==> has_name(old(self)@, name@),
            r == 0usize <==> !has_name(old(self)@, name@),
            !has_name(old(self)@, name@) ==> final(self)@ == old(self)@,
            has_name(old(self)@, name@) ==> (exists|i: int|
                0 <= i < old(self)@.len() && old(self)@[i].name@ == name@ && final(self)@ == old(
                    self,
                )@.remove(i)),
            !has_name(final(self)@, name@),
    {
        match self.find_by_name(name) {
            Some(i) => {
                let ghost idx = i as int;
                self.accounts.remove(i);
                proof {
                    assert forall|k: int|
                        0 <= k < self@.len() implies self@[k].name@ != name@ by {
                        if k < idx {
                            assert(self@[k] == old(self)@[k]);
                        } else {
                            assert(self@[k] == old(self)@[k + 1]);
                        }
                    }
                }
                1
            },
            None => 0,
        }
    }
}

/// The database file's path below the application data directory.
pub fn get_db_path(app_data_dir: &str) -> (r: String)
    ensures
        r@ == app_data_dir@ + "/"@ + "db/database.sqlite"@,
{
    join_path(app_data_dir, "db/database.sqlite")
}

/// Relies on std::path::Path::exists: answers whether the path named an
/// existing filesystem entry at the moment of the call. The answer is
/// advisory — the filesystem may change right after.
#[verifier::external_body]
fn path_exists(path: &str) -> bool {
    std::path::Path::new(path).exists()
}

/// Whether the database file exists at this path. Advisory, like every
/// look at a filesystem.
pub fn db_file_exists(db_path: &str) -> bool {
    path_exists(db_path)
}

} // verus!
