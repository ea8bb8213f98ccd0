use hid_central::address::AddrKind;
use hid_central::address::Address;
use hid_central::connect::connect_config;
use hid_central::connect::ConnectConfig;

#[test]
fn accept_list_holds_the_target_alone() {
    let target = Address::random([0xff, 0xee, 0xdd, 0xcc, 0xbb, 0xaa]);
    let config = connect_config(target);
    assert_eq!(config.filter_accept_list.len(), 1);
    assert_eq!(config.filter_accept_list[0], target);
    assert_eq!(config, ConnectConfig { filter_accept_list: [target] });
}

#[test]
fn accept_list_keeps_kind_and_bytes() {
    for code in [0u8, 1, 2, 3, 0xff, 0x42] {
        let target = Address::new(AddrKind::new(code), [6, 5, 4, 3, 2, 1]);
        let config = connect_config(target);
        assert_eq!(config.filter_accept_list[0].kind.into_inner(), code);
        assert_eq!(config.filter_accept_list[0].bytes, [6, 5, 4, 3, 2, 1]);
    }
}
