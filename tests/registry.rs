use simple_pns::{AccountId, Event, NameHash, SimplePns};

fn account(b: u8) -> AccountId {
    AccountId::new([b; 32])
}

fn name(b: u8) -> NameHash {
    NameHash::new([b; 32])
}

#[test]
fn scenario_register_set_transfer() {
    let a = account(1);
    let b = account(2);
    let x = account(3);
    let y = account(4);
    let h1 = name(9);
    let mut log: Vec<Event> = Vec::new();
    let mut pns = SimplePns::new();
    assert!(pns.register(a, h1, &mut log));
    assert!(!pns.register(a, h1, &mut log));
    assert!(!pns.set_address(b, h1, x, &mut log));
    assert!(pns.set_address(a, h1, x, &mut log));
    assert_eq!(pns.get_address(h1), x);
    assert!(pns.transfer(a, h1, b, &mut log));
    assert!(!pns.set_address(a, h1, y, &mut log));
    assert!(pns.set_address(b, h1, y, &mut log));
    assert_eq!(pns.get_address(h1), y);
    assert_eq!(log.len(), 4);
}

#[test]
fn second_register_by_other_caller_is_refused() {
    let a = account(1);
    let b = account(2);
    let n = name(5);
    let mut log: Vec<Event> = Vec::new();
    let mut pns = SimplePns::new();
    assert!(pns.register(a, n, &mut log));
    assert!(!pns.register(b, n, &mut log));
    assert_eq!(log.len(), 1);
    // the owner is still the first caller
    assert!(!pns.set_address(b, n, b, &mut log));
    assert!(pns.set_address(a, n, b, &mut log));
}

#[test]
fn failed_set_address_keeps_address() {
    let a = account(1);
    let b = account(2);
    let n = name(5);
    let mut log: Vec<Event> = Vec::new();
    let mut pns = SimplePns::new();
    pns.register(a, n, &mut log);
    assert!(pns.set_address(a, n, account(7), &mut log));
    assert!(!pns.set_address(b, n, account(8), &mut log));
    assert_eq!(pns.get_address(n), account(7));
    assert_eq!(log.len(), 2);
}

#[test]
fn transfer_by_non_owner_is_refused() {
    let a = account(1);
    let b = account(2);
    let n = name(5);
    let mut log: Vec<Event> = Vec::new();
    let mut pns = SimplePns::new();
    pns.register(a, n, &mut log);
    assert!(!pns.transfer(b, n, b, &mut log));
    assert!(pns.set_address(a, n, a, &mut log));
    assert_eq!(log.len(), 2);
}

#[test]
fn transfer_to_self_keeps_control() {
    let a = account(1);
    let n = name(5);
    let mut log: Vec<Event> = Vec::new();
    let mut pns = SimplePns::new();
    pns.register(a, n, &mut log);
    assert!(pns.transfer(a, n, a, &mut log));
    assert!(pns.set_address(a, n, account(3), &mut log));
}

#[test]
fn unregistered_name_reads_default() {
    let pns = SimplePns::new();
    let n = name(42);
    assert!(!pns.is_name_exist(n));
    assert_eq!(pns.get_address(n), AccountId::new([0; 32]));
    assert_eq!(pns.default_address(), AccountId::zero());
}

#[test]
fn registered_name_exists_without_address() {
    let a = account(1);
    let n = name(5);
    let mut log: Vec<Event> = Vec::new();
    let mut pns = SimplePns::new();
    assert!(pns.register(a, n, &mut log));
    assert!(pns.is_name_exist(n));
    assert!(!pns.is_name_exist(name(6)));
    assert_eq!(pns.get_address(n), AccountId::zero());
}

#[test]
fn set_address_on_unregistered_name_fails_for_real_caller() {
    let n = name(5);
    let mut log: Vec<Event> = Vec::new();
    let mut pns = SimplePns::new();
    assert!(!pns.set_address(account(1), n, account(2), &mut log));
    assert!(!pns.transfer(account(1), n, account(2), &mut log));
    assert!(log.is_empty());
    assert!(!pns.is_name_exist(n));
}

#[test]
fn default_identity_passes_owner_check_on_unregistered_name() {
    let n = name(5);
    let mut log: Vec<Event> = Vec::new();
    let mut pns = SimplePns::new();
    assert!(pns.set_address(AccountId::zero(), n, account(2), &mut log));
    assert_eq!(pns.get_address(n), account(2));
    assert!(!pns.is_name_exist(n));
}

#[test]
fn events_carry_name_caller_and_values() {
    let a = account(1);
    let b = account(2);
    let x = account(3);
    let y = account(4);
    let n = name(5);
    let mut log: Vec<Event> = Vec::new();
    let mut pns = SimplePns::new();
    pns.register(a, n, &mut log);
    pns.set_address(a, n, x, &mut log);
    pns.set_address(a, n, y, &mut log);
    pns.transfer(a, n, b, &mut log);
    assert_eq!(log.len(), 4);
    assert_eq!(log[0], Event::Register { name: n, from: a });
    assert_eq!(
        log[1],
        Event::SetAddress { name: n, from: a, old_address: None, new_address: x }
    );
    assert_eq!(
        log[2],
        Event::SetAddress { name: n, from: a, old_address: Some(x), new_address: y }
    );
    assert_eq!(
        log[3],
        Event::Transfer { name: n, from: a, old_owner: Some(a), new_owner: b }
    );
    assert_ne!(log[0], Event::Register { name: n, from: b });
}

#[test]
fn failed_calls_emit_nothing() {
    let a = account(1);
    let b = account(2);
    let n = name(5);
    let mut log: Vec<Event> = Vec::new();
    let mut pns = SimplePns::new();
    pns.register(a, n, &mut log);
    pns.register(b, n, &mut log);
    pns.set_address(b, n, b, &mut log);
    pns.transfer(b, n, b, &mut log);
    assert_eq!(log, vec![Event::Register { name: n, from: a }]);
}

#[test]
fn names_are_independent() {
    let a = account(1);
    let b = account(2);
    let mut log: Vec<Event> = Vec::new();
    let mut pns = SimplePns::new();
    assert!(pns.register(a, name(1), &mut log));
    assert!(pns.register(b, name(2), &mut log));
    assert!(pns.set_address(a, name(1), account(10), &mut log));
    assert!(pns.set_address(b, name(2), account(20), &mut log));
    assert!(!pns.set_address(a, name(2), account(30), &mut log));
    assert_eq!(pns.get_address(name(1)), account(10));
    assert_eq!(pns.get_address(name(2)), account(20));
}

#[test]
fn ids_differing_in_one_byte_are_distinct() {
    let mut bytes = [7u8; 32];
    let first = NameHash::new(bytes);
    bytes[31] = 8;
    let second = NameHash::new(bytes);
    assert_ne!(first, second);
    assert_eq!(first, NameHash::new([7u8; 32]));
    let mut log: Vec<Event> = Vec::new();
    let mut pns = SimplePns::new();
    assert!(pns.register(account(1), first, &mut log));
    assert!(pns.register(account(2), second, &mut log));
}
