//! The service/characteristic table.
//!
//! One fixed service holds four characteristics with declared capability
//! sets and fixed-width value buffers: a 1-byte scalar sensor value, a
//! 20-byte outbound opaque payload, a 20-byte inbound opaque payload, and a
//! 128-byte login payload. The table is built once at startup; values change
//! only through its accessors.

use vstd::prelude::*;

use crate::copy_bytes;

verus! {

/// Attribute handle of the scalar sensor characteristic.
pub const TEMPERATURE_HANDLE: u16 = 3;

/// Attribute handle of the outbound opaque payload characteristic.
pub const GET_TICKETS_HANDLE: u16 = 5;

/// Attribute handle of the inbound opaque payload characteristic.
pub const POST_TICKETS_HANDLE: u16 = 7;

/// Attribute handle of the login payload characteristic.
pub const POST_LOGIN_HANDLE: u16 = 9;

/// The four characteristics of the service.
#[derive(Clone, Copy, Debug, PartialEq, Eq, Structural)]
pub enum CharacteristicId {
    /// Latest sensor reading, one byte.
    Temperature,
    /// Device-to-peer opaque ticket channel, 20 bytes.
    GetTickets,
    /// Peer-to-device opaque ticket channel, 20 bytes.
    PostTickets,
    /// Peer-to-device login text; the device replies with a fixed
    /// acknowledgement, 128 bytes.
    PostLogin,
}

/// Declared capability set of a characteristic.
#[derive(Clone, Copy, Debug, PartialEq, Eq, Structural)]
pub struct CharacteristicProps {
    /// A central may read the value.
    pub read: bool,
    /// A central may write the value.
    pub write: bool,
    /// The peripheral may push the value unsolicited.
    pub notify: bool,
}

/// The attribute handle assigned to a characteristic when the table is
/// built.
pub open spec fn spec_handle_of(id: CharacteristicId) -> u16 {
    match id {
        CharacteristicId::Temperature => TEMPERATURE_HANDLE,
        CharacteristicId::GetTickets => GET_TICKETS_HANDLE,
        CharacteristicId::PostTickets => POST_TICKETS_HANDLE,
        CharacteristicId::PostLogin => POST_LOGIN_HANDLE,
    }
}

/// The characteristic owning a handle, if any.
pub open spec fn spec_characteristic_for_handle(h: u16) -> Option<CharacteristicId> {
    if h == TEMPERATURE_HANDLE {
        Some(CharacteristicId::Temperature)
    } else if h == GET_TICKETS_HANDLE {
        Some(CharacteristicId::GetTickets)
    } else if h == POST_TICKETS_HANDLE {
        Some(CharacteristicId::PostTickets)
    } else if h == POST_LOGIN_HANDLE {
        Some(CharacteristicId::PostLogin)
    } else {
        None
    }
}

/// Width, in bytes, of a characteristic's value buffer.
pub open spec fn spec_value_len(id: CharacteristicId) -> nat {
    match id {
        CharacteristicId::Temperature => 1,
        CharacteristicId::GetTickets => 20,
        CharacteristicId::PostTickets => 20,
        CharacteristicId::PostLogin => 128,
    }
}

/// Declared capabilities of a characteristic.
pub open spec fn spec_props_of(id: CharacteristicId) -> CharacteristicProps {
    match id {
        CharacteristicId::Temperature => CharacteristicProps {
            read: true,
            write: false,
            notify: true,
        },
        CharacteristicId::GetTickets => CharacteristicProps {
            read: true,
            write: false,
            notify: true,
        },
        CharacteristicId::PostTickets => CharacteristicProps {
            read: true,
            write: true,
            notify: false,
        },
        CharacteristicId::PostLogin => CharacteristicProps { read: true, write: true, notify: true },
    }
}

/// The 128-bit UUID of a characteristic, in the little-endian order used on
/// the air. The four UUIDs share a common suffix and differ in their first
/// byte.
pub open spec fn spec_characteristic_uuid(id: CharacteristicId) -> Seq<u8> {
    seq![
        spec_uuid_first_byte(id),
        0x00u8,
        0xcbu8,
        0xccu8,
        0x2bu8,
        0xfdu8,
        0u8,
        0u8,
        0u8,
        0u8,
        0u8,
        0u8,
        0u8,
        0u8,
        0u8,
        0u8,
    ]
}

/// The byte that distinguishes the four characteristic UUIDs.
pub open spec fn spec_uuid_first_byte(id: CharacteristicId) -> u8 {
    match id {
        CharacteristicId::Temperature => 0x01,
        CharacteristicId::GetTickets => 0x0a,
        CharacteristicId::PostTickets => 0x0b,
        CharacteristicId::PostLogin => 0x06,
    }
}

/// A sequence of `n` zero bytes.
pub open spec fn spec_zero_bytes(n: nat) -> Seq<u8> {
    Seq::new(n, |i: int| 0u8)
}

/// Mathematical model of the table: the current value of each
/// characteristic.
pub ghost struct TableModel {
    /// Latest sensor reading.
    pub temperature: u8,
    /// Outbound opaque payload buffer.
    pub get_tickets: Seq<u8>,
    /// Inbound opaque payload buffer.
    pub post_tickets: Seq<u8>,
    /// Login payload buffer.
    pub post_login: Seq<u8>,
}

impl TableModel {
    /// Every buffer has its declared width.
    pub open spec fn wf(&self) -> bool {
        &&& self.get_tickets.len() == spec_value_len(CharacteristicId::GetTickets)
        &&& self.post_tickets.len() == spec_value_len(CharacteristicId::PostTickets)
        &&& self.post_login.len() == spec_value_len(CharacteristicId::PostLogin)
    }
}

/// The bytes currently stored for a characteristic.
pub open spec fn spec_value_of(m: TableModel, id: CharacteristicId) -> Seq<u8> {
    match id {
        CharacteristicId::Temperature => seq![m.temperature],
        CharacteristicId::GetTickets => m.get_tickets,
        CharacteristicId::PostTickets => m.post_tickets,
        CharacteristicId::PostLogin => m.post_login,
    }
}

/// The model after storing `bytes` into a characteristic.
pub open spec fn spec_with_value(m: TableModel, id: CharacteristicId, bytes: Seq<u8>) -> TableModel
    recommends
        bytes.len() == spec_value_len(id),
{
    match id {
        CharacteristicId::Temperature => TableModel { temperature: bytes[0], ..m },
        CharacteristicId::GetTickets => TableModel { get_tickets: bytes, ..m },
        CharacteristicId::PostTickets => TableModel { post_tickets: bytes, ..m },
        CharacteristicId::PostLogin => TableModel { post_login: bytes, ..m },
    }
}

/// Why a store into the table was rejected.
#[derive(Clone, Copy, Debug, PartialEq, Eq, Structural)]
pub enum StoreError {
    /// The value does not have the characteristic's declared width.
    SizeMismatch,
}

/// The service/characteristic table: the current value of every
/// characteristic, owned in fixed-width buffers.
pub struct ServiceTable {
    temperature: u8,
    get_tickets: Vec<u8>,
    post_tickets: Vec<u8>,
    post_login: Vec<u8>,
}

impl View for ServiceTable {
    type V = TableModel;

    closed spec fn view(&self) -> TableModel {
        TableModel {
            temperature: self.temperature,
            get_tickets: self.get_tickets@,
            post_tickets: self.post_tickets@,
            post_login: self.post_login@,
        }
    }
}

impl ServiceTable {
    /// The table's buffers have their declared widths.
    pub open spec fn wf(&self) -> bool {
        self@.wf()
    }

    /// Build the table with every characteristic zero-filled.
    pub fn new() -> (t: ServiceTable)
        ensures
            t.wf(),
            t@.temperature == 0,
            t@.get_tickets == spec_zero_bytes(20),
            t@.post_tickets == spec_zero_bytes(20),
            t@.post_login == spec_zero_bytes(128),
    {
        ServiceTable {
            temperature: 0,
            get_tickets: zero_bytes(20),
            post_tickets: zero_bytes(20),
            post_login: zero_bytes(128),
        }
    }

    /// Read a characteristic's current value, as the protocol layer would
    /// reply to a read request.
    pub fn read_value(&self, id: CharacteristicId) -> (r: Vec<u8>)
        ensures
            r@ == spec_value_of(self@, id),
    {
        match id {
            CharacteristicId::Temperature => {
                let mut r: Vec<u8> = Vec::new();
                r.push(self.temperature);
                proof {
                    assert(r@ =~= spec_value_of(self@, id));
                }
                r
            },
            CharacteristicId::GetTickets => copy_bytes(&self.get_tickets),
            CharacteristicId::PostTickets => copy_bytes(&self.post_tickets),
            CharacteristicId::PostLogin => copy_bytes(&self.post_login),
        }
    }

    /// Store a value into a characteristic. Succeeds exactly when the value
    /// has the characteristic's declared width; otherwise the store is
    /// rejected and the table is unchanged.
    pub fn write_value(&mut self, id: CharacteristicId, v: &Vec<u8>) -> (r: Result<
        (),
        StoreError,
    >)
        ensures
            r is Ok <==> v@.len() == spec_value_len(id),
            r is Ok ==> final(self)@ == spec_with_value(old(self)@, id, v@),
            r is Err ==> final(self)@ == old(self)@,
            old(self).wf() ==> final(self).wf(),
    {
        let width = value_len(id);
        if v.len() != width {
            return Err(StoreError::SizeMismatch);
        }
        match id {
            CharacteristicId::Temperature => {
                self.temperature = v[0];
            },
            CharacteristicId::GetTickets => {
                self.get_tickets = copy_bytes(v);
            },
            CharacteristicId::PostTickets => {
                self.post_tickets = copy_bytes(v);
            },
            CharacteristicId::PostLogin => {
                self.post_login = copy_bytes(v);
            },
        }
        Ok(())
    }
}

/// The attribute handle of a characteristic.
pub fn handle_of(id: CharacteristicId) -> (h: u16)
    ensures
        h == spec_handle_of(id),
{
    match id {
        CharacteristicId::Temperature => TEMPERATURE_HANDLE,
        CharacteristicId::GetTickets => GET_TICKETS_HANDLE,
        CharacteristicId::PostTickets => POST_TICKETS_HANDLE,
        CharacteristicId::PostLogin => POST_LOGIN_HANDLE,
    }
}

/// Look a handle up in the table's schema.
pub fn characteristic_for_handle(h: u16) -> (r: Option<CharacteristicId>)
    ensures
        r == spec_characteristic_for_handle(h),
{
    if h == TEMPERATURE_HANDLE {
        Some(CharacteristicId::Temperature)
    } else if h == GET_TICKETS_HANDLE {
        Some(CharacteristicId::GetTickets)
    } else if h == POST_TICKETS_HANDLE {
        Some(CharacteristicId::PostTickets)
    } else if h == POST_LOGIN_HANDLE {
        Some(CharacteristicId::PostLogin)
    } else {
        None
    }
}

/// Which characteristic a wire handle belongs to, given the handles the
/// protocol layer assigned to the four characteristics when the table was
/// registered. Events name characteristics by these wire handles; an event
/// for any other handle belongs to no characteristic of the service.
pub open spec fn spec_resolve_wire_handle(
    wire: u16,
    temperature: u16,
    get_tickets: u16,
    post_tickets: u16,
    post_login: u16,
) -> Option<CharacteristicId> {
    if wire == temperature {
        Some(CharacteristicId::Temperature)
    } else if wire == get_tickets {
        Some(CharacteristicId::GetTickets)
    } else if wire == post_tickets {
        Some(CharacteristicId::PostTickets)
    } else if wire == post_login {
        Some(CharacteristicId::PostLogin)
    } else {
        None
    }
}

/// Which characteristic a wire handle belongs to; see
/// [`spec_resolve_wire_handle`]. The first match wins, so the mapping is
/// unambiguous as long as the assigned handles are distinct.
pub fn resolve_wire_handle(
    wire: u16,
    temperature: u16,
    get_tickets: u16,
    post_tickets: u16,
    post_login: u16,
) -> (r: Option<CharacteristicId>)
    ensures
        r == spec_resolve_wire_handle(wire, temperature, get_tickets, post_tickets, post_login),
{
    if wire == temperature {
        Some(CharacteristicId::Temperature)
    } else if wire == get_tickets {
        Some(CharacteristicId::GetTickets)
    } else if wire == post_tickets {
        Some(CharacteristicId::PostTickets)
    } else if wire == post_login {
        Some(CharacteristicId::PostLogin)
    } else {
        None
    }
}

/// Handles are assigned one per characteristic: looking up a
/// characteristic's own handle finds that characteristic and no other.
pub proof fn lemma_handles_distinct()
    ensures
        forall|id: CharacteristicId| #[trigger]
            spec_characteristic_for_handle(spec_handle_of(id)) == Some(id),
{
}

/// Width, in bytes, of a characteristic's value buffer.
pub fn value_len(id: CharacteristicId) -> (n: usize)
    ensures
        n == spec_value_len(id),
{
    match id {
        CharacteristicId::Temperature => 1,
        CharacteristicId::GetTickets => 20,
        CharacteristicId::PostTickets => 20,
        CharacteristicId::PostLogin => 128,
    }
}

/// Declared capabilities of a characteristic.
pub fn props_of(id: CharacteristicId) -> (p: CharacteristicProps)
    ensures
        p == spec_props_of(id),
{
    match id {
        CharacteristicId::Temperature => CharacteristicProps {
            read: true,
            write: false,
            notify: true,
        },
        CharacteristicId::GetTickets => CharacteristicProps {
            read: true,
            write: false,
            notify: true,
        },
        CharacteristicId::PostTickets => CharacteristicProps {
            read: true,
            write: true,
            notify: false,
        },
        CharacteristicId::PostLogin => CharacteristicProps { read: true, write: true, notify: true },
    }
}

/// The 128-bit UUID of a characteristic, little-endian.
pub fn characteristic_uuid(id: CharacteristicId) -> (r: Vec<u8>)
    ensures
        r@ == spec_characteristic_uuid(id),
{
    let first: u8 = match id {
        CharacteristicId::Temperature => 0x01,
        CharacteristicId::GetTickets => 0x0a,
        CharacteristicId::PostTickets => 0x0b,
        CharacteristicId::PostLogin => 0x06,
    };
    let mut r: Vec<u8> = Vec::new();
    r.push(first);
    r.push(0x00);
    r.push(0xcb);
    r.push(0xcc);
    r.push(0x2b);
    r.push(0xfd);
    let mut i: usize = 0;
    while i < 10
        invariant
            i <= 10,
            r@.len() == 6 + i,
            r@ == spec_characteristic_uuid(id).take(6 + i as int),
        decreases 10 - i,
    {
        r.push(0);
        i = i + 1;
    }
    proof {
        assert(spec_characteristic_uuid(id).take(16) =~= spec_characteristic_uuid(id));
    }
    r
}

/// A vector of `n` zero bytes.
pub fn zero_bytes(n: usize) -> (r: Vec<u8>)
    ensures
        r@ == spec_zero_bytes(n as nat),
{
    let mut r: Vec<u8> = Vec::new();
    let mut i: usize = 0;
    while i < n
        invariant
            i <= n,
            r@ == spec_zero_bytes(i as nat),
        decreases n - i,
    {
        r.push(0);
        proof {
            assert(r@ =~= spec_zero_bytes((i + 1) as nat));
        }
        i = i + 1;
    }
    r
}

} // verus!
