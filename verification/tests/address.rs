use bt_hci::param::AddrKind as HciAddrKind;
use hid_central::address::addr_kind_str;
use hid_central::address::AddrKind;
use hid_central::address::Address;
use hid_central::address::KIND_ANONYMOUS;
use hid_central::address::KIND_PUBLIC;
use hid_central::address::KIND_RANDOM;
use hid_central::address::KIND_RESOLVABLE_PUBLIC;
use hid_central::address::KIND_RESOLVABLE_RANDOM;

#[test]
fn kind_codes_are_those_of_the_controller() {
    assert_eq!(KIND_PUBLIC, HciAddrKind::PUBLIC.into_inner());
    assert_eq!(KIND_RANDOM, HciAddrKind::RANDOM.into_inner());
    assert_eq!(KIND_RESOLVABLE_PUBLIC, HciAddrKind::RESOLVABLE_PRIVATE_OR_PUBLIC.into_inner());
    assert_eq!(KIND_RESOLVABLE_RANDOM, HciAddrKind::RESOLVABLE_PRIVATE_OR_RANDOM.into_inner());
    assert_eq!(KIND_ANONYMOUS, HciAddrKind::ANONYMOUS_ADV.into_inner());
}

#[test]
fn every_known_kind_has_its_name() {
    assert_eq!(addr_kind_str(AddrKind::new(0)), "public");
    assert_eq!(addr_kind_str(AddrKind::new(1)), "random");
    assert_eq!(addr_kind_str(AddrKind::new(2)), "resolvable-public");
    assert_eq!(addr_kind_str(AddrKind::new(3)), "resolvable-random");
    assert_eq!(addr_kind_str(AddrKind::new(0xff)), "anonymous-adv");
}

#[test]
fn other_codes_are_unknown() {
    assert_eq!(addr_kind_str(AddrKind::new(4)), "unknown");
    assert_eq!(addr_kind_str(AddrKind::new(0x80)), "unknown");
    assert_eq!(addr_kind_str(AddrKind::new(0xfe)), "unknown");
}

#[test]
fn known_kinds_are_the_five() {
    let known: Vec<u8> = (0..=255u8).filter(|code| AddrKind::new(*code).is_known()).collect();
    assert_eq!(known, vec![0, 1, 2, 3, 0xff]);
}

#[test]
fn kind_keeps_its_code() {
    for code in 0..=255u8 {
        assert_eq!(AddrKind::new(code).into_inner(), code);
    }
}

#[test]
fn random_address_has_the_random_kind() {
    let address = Address::random([0xff, 0x8f, 0x1b, 0x05, 0xe4, 0xfe]);
    assert_eq!(address.kind, AddrKind::new(KIND_RANDOM));
    assert_eq!(address.bytes, [0xff, 0x8f, 0x1b, 0x05, 0xe4, 0xfe]);
    assert_eq!(addr_kind_str(address.kind), "random");
}

#[test]
fn addresses_are_equal_by_kind_and_bytes() {
    let a = Address::new(AddrKind::new(1), [1, 2, 3, 4, 5, 6]);
    assert_eq!(a, Address::random([1, 2, 3, 4, 5, 6]));
    assert_ne!(a, Address::new(AddrKind::new(0), [1, 2, 3, 4, 5, 6]));
    for i in 0..6 {
        let mut bytes = [1, 2, 3, 4, 5, 6];
        bytes[i] = 0;
        assert_ne!(a, Address::random(bytes));
    }
}

#[test]
fn bytes_are_kept_least_significant_first() {
    let bytes = [0xff, 0xee, 0xdd, 0xcc, 0xbb, 0xaa];
    let shown = format!("{}", trouble_host::Address::random(bytes));
    assert_eq!(shown, "AA:BB:CC:DD:EE:FF");
    assert_eq!(Address::random(bytes).bytes[5], 0xaa);
}
