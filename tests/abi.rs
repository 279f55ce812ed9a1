use simple_pns::{AccountId, Event, NameHash, SimplePns};

fn account(b: u8) -> AccountId {
    AccountId::new([b; 32])
}

fn hash(b: u8) -> NameHash {
    NameHash::new([b; 32])
}

#[test]
fn abi_reads_default_to_empty() {
    let pns = SimplePns::new();
    assert!(pns.get_abi_by_name(hash(1)).is_empty());
    assert!(pns.get_abi_by_code_hash(hash(2)).is_empty());
    assert!(pns.get_code_hash_list_by_account(account(3)).is_empty());
}

#[test]
fn register_abi_stores_under_name_and_code_hash() {
    let a = account(1);
    let mut log: Vec<Event> = Vec::new();
    let mut pns = SimplePns::new();
    assert!(pns.register_abi(a, hash(10), hash(20), vec![1, 2, 3], &mut log));
    assert_eq!(pns.get_abi_by_name(hash(10)), vec![1, 2, 3]);
    assert_eq!(pns.get_abi_by_code_hash(hash(20)), vec![1, 2, 3]);
    assert!(pns.get_abi_by_name(hash(20)).is_empty());
    assert!(pns.get_abi_by_code_hash(hash(10)).is_empty());
    assert_eq!(pns.get_code_hash_list_by_account(a), vec![hash(20)]);
    assert!(pns.get_code_hash_list_by_account(account(2)).is_empty());
    assert_eq!(
        log,
        vec![Event::RegisterAbi { from: a, name: hash(10), code_hash: hash(20), abi: vec![1, 2, 3] }]
    );
    assert_ne!(
        log[0],
        Event::RegisterAbi { from: a, name: hash(10), code_hash: hash(20), abi: vec![1, 2, 4] }
    );
}

#[test]
fn code_hash_list_keeps_order_and_duplicates() {
    let a = account(1);
    let b = account(2);
    let mut log: Vec<Event> = Vec::new();
    let mut pns = SimplePns::new();
    assert!(pns.register_abi(a, hash(10), hash(30), vec![1], &mut log));
    assert!(pns.register_abi(b, hash(11), hash(31), vec![2], &mut log));
    assert!(pns.register_abi(a, hash(12), hash(32), vec![3], &mut log));
    assert!(pns.register_abi(a, hash(13), hash(30), vec![4], &mut log));
    assert_eq!(pns.get_code_hash_list_by_account(a), vec![hash(30), hash(32), hash(30)]);
    assert_eq!(pns.get_code_hash_list_by_account(b), vec![hash(31)]);
    // the latest registration under a code hash is the one read back
    assert_eq!(pns.get_abi_by_code_hash(hash(30)), vec![4]);
    assert_eq!(pns.get_abi_by_name(hash(10)), vec![1]);
    assert_eq!(log.len(), 4);
}

#[test]
fn register_abi_refused_for_registered_name() {
    let a = account(1);
    let mut log: Vec<Event> = Vec::new();
    let mut pns = SimplePns::new();
    assert!(pns.register(a, hash(10), &mut log));
    assert!(!pns.register_abi(a, hash(10), hash(20), vec![9], &mut log));
    assert!(pns.get_abi_by_name(hash(10)).is_empty());
    assert!(pns.get_abi_by_code_hash(hash(20)).is_empty());
    assert!(pns.get_code_hash_list_by_account(a).is_empty());
    assert_eq!(log.len(), 1);
}

#[test]
fn register_abi_leaves_names_unregistered() {
    let a = account(1);
    let mut log: Vec<Event> = Vec::new();
    let mut pns = SimplePns::new();
    assert!(pns.register_abi(a, hash(10), hash(20), vec![], &mut log));
    assert!(!pns.is_name_exist(hash(10)));
    assert!(pns.register(a, hash(10), &mut log));
    assert_eq!(log[1], Event::Register { name: hash(10), from: a });
}
