use ble_sci::address::{own_address, target_address};
use ble_sci::link::Role;

#[test]
fn each_role_has_its_fixed_address() {
    assert_eq!(own_address(Role::Peripheral), [0xff, 0x1f, 0x1f, 0x1f, 0x1f, 0xc0]);
    assert_eq!(own_address(Role::Central), [0xaa, 0x2f, 0x2f, 0x2f, 0x2f, 0xc0]);
}

#[test]
fn the_central_looks_for_the_peripheral_only() {
    assert_eq!(target_address(), own_address(Role::Peripheral));
    assert_ne!(target_address(), own_address(Role::Central));
}

#[test]
fn both_addresses_are_static_random() {
    for role in [Role::Peripheral, Role::Central] {
        assert_eq!(own_address(role)[5] & 0xc0, 0xc0);
    }
}
