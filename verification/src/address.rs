//! The fixed addresses of the two devices. The central looks for no one but
//! the peripheral.

use crate::link::Role;
use vstd::prelude::*;

verus! {

/// The address of each role, least significant byte first.
pub open spec fn spec_address(role: Role) -> Seq<u8> {
    match role {
        Role::Peripheral => seq![0xffu8, 0x1fu8, 0x1fu8, 0x1fu8, 0x1fu8, 0xc0u8],
        Role::Central => seq![0xaau8, 0x2fu8, 0x2fu8, 0x2fu8, 0x2fu8, 0xc0u8],
    }
}

/// Whether the six bytes are a static random address: the two most
/// significant bits of the last byte are set.
pub open spec fn static_random(address: Seq<u8>) -> bool {
    address.len() == 6 && address[5] >= 0xc0
}

/// The random address that a device of the given role uses.
pub fn own_address(role: Role) -> (address: [u8; 6])
    ensures
        address@ == spec_address(role),
        static_random(address@),
{
    let address: [u8; 6] = match role {
        Role::Peripheral => [0xff, 0x1f, 0x1f, 0x1f, 0x1f, 0xc0],
        Role::Central => [0xaa, 0x2f, 0x2f, 0x2f, 0x2f, 0xc0],
    };
    assert(address@ =~= spec_address(role));
    address
}

/// The one address that the central connects to: the peripheral's.
pub fn target_address() -> (address: [u8; 6])
    ensures
        address@ == spec_address(Role::Peripheral),
{
    own_address(Role::Peripheral)
}

/// The two roles have different addresses, so a device never finds itself.
pub proof fn lemma_addresses_differ()
    ensures
        spec_address(Role::Peripheral) != spec_address(Role::Central),
{
    assert(spec_address(Role::Peripheral)[0] != spec_address(Role::Central)[0]);
}

} // verus!
