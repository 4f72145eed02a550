use node_supervisor::db::{db_file_exists, AccountStore, StoreError};

fn insert_named(store: &mut AccountStore, name: &str, network: &str) -> Result<usize, StoreError> {
    store.insert_account(
        String::from(name),
        String::from(network),
        Some(String::from("dataldk1")),
        String::from("user:password@localhost:18332"),
        String::from("http://localhost:3001"),
        String::from("tcp://localhost:50001"),
        String::from("http://proxy.local"),
        String::from("http://lsp.local"),
        String::from("http://maker.local"),
        String::from("http://maker.local"),
        String::from("3001"),
        String::from("9735"),
    )
}

#[test]
fn insert_assigns_fresh_ids_and_keeps_order() {
    let mut store = AccountStore::new();
    assert_eq!(insert_named(&mut store, "alice", "testnet"), Ok(1));
    assert_eq!(insert_named(&mut store, "bob", "regtest"), Ok(1));
    let accounts = store.get_accounts();
    assert_eq!(accounts.len(), 2);
    assert_eq!(accounts[0].name, "alice");
    assert_eq!(accounts[1].name, "bob");
    assert_ne!(accounts[0].id, accounts[1].id);
}

#[test]
fn duplicate_names_are_refused() {
    let mut store = AccountStore::new();
    assert_eq!(insert_named(&mut store, "alice", "testnet"), Ok(1));
    assert_eq!(
        insert_named(&mut store, "alice", "regtest"),
        Err(StoreError::DuplicateName)
    );
    assert_eq!(store.get_accounts().len(), 1);
    assert_eq!(store.get_accounts()[0].network, "testnet");
}

#[test]
fn lookup_by_name_finds_the_record() {
    let mut store = AccountStore::new();
    assert!(store.get_account_by_name("alice").is_none());
    assert!(!store.check_account_exists("alice"));
    insert_named(&mut store, "alice", "testnet").unwrap();
    let account = store.get_account_by_name("alice").unwrap();
    assert_eq!(account.name, "alice");
    assert_eq!(account.network, "testnet");
    assert_eq!(account.datapath, Some(String::from("dataldk1")));
    assert_eq!(account.daemon_listening_port, "3001");
    assert_eq!(account.ldk_peer_listening_port, "9735");
    assert!(store.check_account_exists("alice"));
}

#[test]
fn update_rewrites_fields_but_keeps_identity() {
    let mut store = AccountStore::new();
    insert_named(&mut store, "alice", "testnet").unwrap();
    let before = store.get_account_by_name("alice").unwrap();

    let changed = store.update_account(
        String::from("alice"),
        String::from("mainnet"),
        None,
        String::from("user:password@localhost:8332"),
        String::from("http://localhost:3002"),
        String::from("tcp://localhost:50002"),
        String::from("http://proxy2.local"),
        String::from("http://lsp2.local"),
        String::new(),
        String::new(),
        String::from("3002"),
        String::from("9736"),
    );
    assert_eq!(changed, 1);

    let after = store.get_account_by_name("alice").unwrap();
    assert_eq!(after.id, before.id);
    assert_eq!(after.name, "alice");
    assert_eq!(after.network, "mainnet");
    assert_eq!(after.datapath, None);
    assert_eq!(after.daemon_listening_port, "3002");
    assert_eq!(after.ldk_peer_listening_port, "9736");
}

#[test]
fn update_of_missing_name_changes_nothing() {
    let mut store = AccountStore::new();
    insert_named(&mut store, "alice", "testnet").unwrap();
    let changed = store.update_account(
        String::from("carol"),
        String::from("mainnet"),
        None,
        String::new(),
        String::new(),
        String::new(),
        String::new(),
        String::new(),
        String::new(),
        String::new(),
        String::from("3002"),
        String::from("9736"),
    );
    assert_eq!(changed, 0);
    assert_eq!(store.get_accounts().len(), 1);
    assert_eq!(store.get_account_by_name("alice").unwrap().network, "testnet");
}

#[test]
fn delete_removes_exactly_the_named_record() {
    let mut store = AccountStore::new();
    insert_named(&mut store, "alice", "testnet").unwrap();
    insert_named(&mut store, "bob", "regtest").unwrap();
    assert_eq!(store.delete_account("alice"), 1);
    assert!(!store.check_account_exists("alice"));
    assert!(store.check_account_exists("bob"));
    assert_eq!(store.delete_account("alice"), 0);
    assert_eq!(store.get_accounts().len(), 1);
}

#[test]
fn deleted_name_can_be_reinserted_under_a_new_id() {
    let mut store = AccountStore::new();
    insert_named(&mut store, "alice", "testnet").unwrap();
    let first_id = store.get_account_by_name("alice").unwrap().id;
    store.delete_account("alice");
    insert_named(&mut store, "alice", "regtest").unwrap();
    let second_id = store.get_account_by_name("alice").unwrap().id;
    assert_ne!(first_id, second_id);
}

#[test]
fn db_file_exists_answers_for_real_paths() {
    assert!(db_file_exists("/"));
    assert!(!db_file_exists("/no/such/path/database.sqlite"));
}
