//! The attribute service that carries the exchange: one service with a
//! counter that can be read and notified, and a command that can be
//! written.

use vstd::prelude::*;

verus! {

/// The short identifier of the counter service.
pub const SERVICE_ID: u16 = 0xffe0;

/// The short identifier of the counter attribute.
pub const COUNTER_ID: u16 = 0xffe1;

/// The short identifier of the command attribute.
pub const COMMAND_ID: u16 = 0xffe2;

/// The 128-bit identifier that the Bluetooth base identifier
/// `00000000-0000-1000-8000-00805f9b34fb` gives for a short one, as the
/// sixteen bytes that go over the air: the least significant byte first.
pub open spec fn spec_uuid128(short: u16) -> Seq<u8> {
    seq![
        0xfb,
        0x34,
        0x9b,
        0x5f,
        0x80,
        0x00,
        0x00,
        0x80,
        0x00,
        0x10,
        0x00,
        0x00,
        (short % 256) as u8,
        (short / 256) as u8,
        0x00,
        0x00,
    ]
}

/// The 128-bit identifier for a short one, least significant byte first.
pub fn uuid128(short: u16) -> (uuid: [u8; 16])
    ensures
        uuid@ == spec_uuid128(short),
{
    let low: u8 = (short % 256) as u8;
    let high: u8 = (short / 256) as u8;
    let uuid: [u8; 16] = [
        0xfb,
        0x34,
        0x9b,
        0x5f,
        0x80,
        0x00,
        0x00,
        0x80,
        0x00,
        0x10,
        0x00,
        0x00,
        low,
        high,
        0x00,
        0x00,
    ];
    assert(uuid@ =~= spec_uuid128(short));
    uuid
}

/// An attribute of the service: its identifier, the size of its value in
/// bytes, and what a peer may do with it.
#[derive(Clone, Copy, Debug, PartialEq, Eq)]
pub struct Characteristic {
    pub uuid: [u8; 16],
    pub size: usize,
    pub read: bool,
    pub write: bool,
    pub notify: bool,
}

/// The counter service: a counter of four bytes, least significant first,
/// that can be read and notified, and a command of one byte that can be
/// written.
#[derive(Clone, Copy, Debug, PartialEq, Eq)]
pub struct CounterService {
    pub uuid: [u8; 16],
    pub counter: Characteristic,
    pub command: Characteristic,
}

/// The attribute server: it holds the counter service and nothing else.
#[derive(Clone, Copy, Debug, PartialEq, Eq)]
pub struct CounterServer {
    pub counter_service: CounterService,
}

impl CounterService {
    /// Whether this is the counter service as it is declared.
    pub open spec fn declared(self) -> bool {
        &&& self.uuid@ == spec_uuid128(SERVICE_ID)
        &&& self.counter.uuid@ == spec_uuid128(COUNTER_ID)
        &&& self.counter.size == 4
        &&& self.counter.read && self.counter.notify && !self.counter.write
        &&& self.command.uuid@ == spec_uuid128(COMMAND_ID)
        &&& self.command.size == 1
        &&& self.command.write && !self.command.read && !self.command.notify
    }

    /// The counter service.
    pub fn new() -> (service: CounterService)
        ensures
            service.declared(),
    {
        CounterService {
            uuid: uuid128(SERVICE_ID),
            counter: Characteristic {
                uuid: uuid128(COUNTER_ID),
                size: 4,
                read: true,
                write: false,
                notify: true,
            },
            command: Characteristic {
                uuid: uuid128(COMMAND_ID),
                size: 1,
                read: false,
                write: true,
                notify: false,
            },
        }
    }
}

impl CounterServer {
    /// The attribute server with its one service.
    pub fn new() -> (server: CounterServer)
        ensures
            server.counter_service.declared(),
    {
        CounterServer { counter_service: CounterService::new() }
    }
}

} // verus!
