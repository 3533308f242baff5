//! The per-connection event dispatch state machine.
//!
//! Each GATT event delivered on a live connection — a read request, a write
//! request, or a disconnect — is dispatched to characteristic-specific
//! handling. Every read or write must be accepted and replied to exactly
//! once; a disconnect is the only normal exit of the loop. A malformed
//! payload never aborts the loop: decode failures degrade to diagnostics.
//!
//! Write handling follows the schema:
//! - a write to the login characteristic stores the fixed acknowledgement
//!   text (never the input) and pushes it back as a notification;
//! - a write to the scalar sensor characteristic stores the payload's first
//!   byte, and an empty payload stores nothing;
//! - a write to the inbound opaque payload characteristic stores the first
//!   20 bytes, zero-filling the rest of the buffer (a short write never
//!   leaves stale bytes behind).

use vstd::prelude::*;

use crate::gatt::CharacteristicId;
use crate::gatt::POST_LOGIN_HANDLE;
use crate::gatt::POST_TICKETS_HANDLE;
use crate::gatt::ServiceTable;
use crate::gatt::TEMPERATURE_HANDLE;
use crate::gatt::TableModel;
use crate::gatt::spec_with_value;

verus! {

/// One event delivered by the link layer on a live connection.
pub enum GattEvent {
    /// A central asked to read the value at `handle`; the protocol layer
    /// replies with the stored value.
    Read {
        /// Attribute handle named in the request.
        handle: u16,
    },
    /// A central wrote `data` to the value at `handle`.
    Write {
        /// Attribute handle named in the request.
        handle: u16,
        /// The payload carried by the request.
        data: Vec<u8>,
    },
    /// The link dropped; carries the link layer's reason code.
    Disconnected {
        /// Disconnect reason code.
        reason: u8,
    },
    /// Any other connection event; ignored by the dispatcher.
    Other,
}

/// Mathematical model of one event.
pub ghost enum EventModel {
    /// A read request.
    Read {
        /// Attribute handle named in the request.
        handle: u16,
    },
    /// A write request.
    Write {
        /// Attribute handle named in the request.
        handle: u16,
        /// The payload carried by the request.
        data: Seq<u8>,
    },
    /// The link dropped.
    Disconnected {
        /// Disconnect reason code.
        reason: u8,
    },
    /// Any other connection event.
    Other,
}

impl View for GattEvent {
    type V = EventModel;

    open spec fn view(&self) -> EventModel {
        match self {
            GattEvent::Read { handle } => EventModel::Read { handle: *handle },
            GattEvent::Write { handle, data } => EventModel::Write {
                handle: *handle,
                data: data@,
            },
            GattEvent::Disconnected { reason } => EventModel::Disconnected { reason: *reason },
            GattEvent::Other => EventModel::Other,
        }
    }
}

/// A value to push to the connected central on a characteristic.
pub struct Notification {
    /// The characteristic notified on.
    pub characteristic: CharacteristicId,
    /// The pushed bytes.
    pub payload: Vec<u8>,
}

/// What one event requires of the caller after dispatch.
pub struct EventOutcome {
    /// The event must be accepted and replied to, exactly once.
    pub reply: bool,
    /// A notification to attempt; a failed send is reported, not fatal.
    pub notify: Option<Notification>,
    /// The loop must exit with this disconnect reason.
    pub disconnect_reason: Option<u8>,
    /// For a login write: whether the payload decoded as UTF-8 text, for
    /// diagnostics only. The stored acknowledgement does not depend on it.
    pub login_text: Option<bool>,
}

/// `data` cut or zero-extended to exactly `width` bytes.
pub open spec fn spec_framed(data: Seq<u8>, width: nat) -> Seq<u8> {
    Seq::new(width, |i: int| if i < data.len() { data[i] } else { 0u8 })
}

/// The acknowledgement text stored and notified after every login write.
pub open spec fn spec_ack_text() -> Seq<u8> {
    seq![
        0x32u8,
        0x30u8,
        0x30u8,
        0x20u8,
        0x4fu8,
        0x4bu8,
        0x20u8,
        0x2fu8,
        0x50u8,
        0x6fu8,
        0x73u8,
        0x74u8,
        0x4cu8,
        0x6fu8,
        0x67u8,
        0x69u8,
        0x6eu8,
    ]
}

/// The acknowledgement text framed in the login characteristic's 128-byte
/// buffer.
pub open spec fn spec_ack_frame() -> Seq<u8> {
    spec_framed(spec_ack_text(), 128)
}

/// Whether a byte sequence is valid UTF-8.
pub uninterp spec fn utf8_valid(bytes: Seq<u8>) -> bool;

/// The table after one event. Only writes change it: a login write stores
/// the fixed acknowledgement, a sensor write stores the first payload byte
/// (nothing, when the payload is empty), an inbound ticket write stores the
/// payload framed to 20 bytes. Reads, disconnects, writes to unknown handles
/// and all other events leave it unchanged.
pub open spec fn spec_handle_table(m: TableModel, e: EventModel) -> TableModel {
    match e {
        EventModel::Write { handle, data } => {
            if handle == POST_LOGIN_HANDLE {
                spec_with_value(m, CharacteristicId::PostLogin, spec_ack_frame())
            } else if handle == TEMPERATURE_HANDLE {
                if data.len() > 0 {
                    spec_with_value(m, CharacteristicId::Temperature, seq![data[0]])
                } else {
                    m
                }
            } else if handle == POST_TICKETS_HANDLE {
                spec_with_value(m, CharacteristicId::PostTickets, spec_framed(data, 20))
            } else {
                m
            }
        },
        _ => m,
    }
}

/// Copy `data` into a fresh buffer of exactly `width` bytes: excess input is
/// cut off, missing input is zero-filled.
pub fn frame_payload(data: &Vec<u8>, width: usize) -> (r: Vec<u8>)
    ensures
        r@ == spec_framed(data@, width as nat),
{
    let mut r: Vec<u8> = Vec::new();
    let mut i: usize = 0;
    while i < width
        invariant
            i <= width,
            r@.len() == i,
            forall|k: int|
                0 <= k < i ==> r@[k] == (if k < data@.len() {
                    data@[k]
                } else {
                    0u8
                }),
        decreases width - i,
    {
        if i < data.len() {
            r.push(data[i]);
        } else {
            r.push(0);
        }
        i = i + 1;
    }
    proof {
        assert(r@ =~= spec_framed(data@, width as nat));
    }
    r
}

/// The acknowledgement text as bytes (`200 OK /PostLogin`).
pub fn ack_text() -> (r: Vec<u8>)
    ensures
        r@ == spec_ack_text(),
{
    let mut r: Vec<u8> = Vec::new();
    r.push(0x32);
    r.push(0x30);
    r.push(0x30);
    r.push(0x20);
    r.push(0x4f);
    r.push(0x4b);
    r.push(0x20);
    r.push(0x2f);
    r.push(0x50);
    r.push(0x6f);
    r.push(0x73);
    r.push(0x74);
    r.push(0x4c);
    r.push(0x6f);
    r.push(0x67);
    r.push(0x69);
    r.push(0x6e);
    proof {
        assert(r@ =~= spec_ack_text());
    }
    r
}

/// The acknowledgement framed in the login characteristic's buffer.
pub fn ack_frame() -> (r: Vec<u8>)
    ensures
        r@ == spec_ack_frame(),
{
    let text = ack_text();
    frame_payload(&text, 128)
}

/// Relies on `core::str::from_utf8`: whether the bytes form valid UTF-8
/// depends on the bytes alone. Used for diagnostics when a login payload
/// arrives; a decode failure never escalates to an error.
#[verifier::external_body]
fn payload_is_text(data: &Vec<u8>) -> (r: bool)
    ensures
        r == utf8_valid(data@),
{
    core::str::from_utf8(data.as_slice()).is_ok()
}

/// Dispatch one event against the table.
///
/// Writing any payload to the login characteristic stores exactly the fixed
/// acknowledgement, independent of the input, and asks for it to be notified
/// back. A write longer than an opaque-payload buffer is truncated to the
/// buffer's width; shorter input leaves the rest of the buffer zero-filled.
/// A disconnect leaves the table unchanged and tells the loop to exit. Every
/// read and write, and only those, must be accepted and replied to.
pub fn handle_event(table: &mut ServiceTable, event: &GattEvent) -> (r: EventOutcome)
    requires
        old(table).wf(),
    ensures
        final(table)@ == spec_handle_table(old(table)@, event@),
        final(table).wf(),
        r.reply <==> (event@ is Read || event@ is Write),
        r.disconnect_reason == (match event@ {
            EventModel::Disconnected { reason } => Some(reason),
            _ => None::<u8>,
        }),
        r.notify is Some <==> (event@ matches EventModel::Write { handle, .. } && handle
            == POST_LOGIN_HANDLE),
        r.notify matches Some(n) ==> n.characteristic == CharacteristicId::PostLogin && n.payload@
            == spec_ack_frame(),
        r.login_text == (match event@ {
            EventModel::Write { handle, data } => if handle == POST_LOGIN_HANDLE {
                Some(utf8_valid(data))
            } else {
                None::<bool>
            },
            _ => None::<bool>,
        }),
        event@ matches EventModel::Write { handle, data } ==> (handle == POST_LOGIN_HANDLE
            ==> final(table)@.post_login == spec_ack_frame()) && (handle == POST_TICKETS_HANDLE
            ==> final(table)@.post_tickets == spec_framed(data, 20)),
{
    match event {
        GattEvent::Read { handle: _ } => EventOutcome {
            reply: true,
            notify: None,
            disconnect_reason: None,
            login_text: None,
        },
        GattEvent::Write { handle, data } => {
            if *handle == POST_LOGIN_HANDLE {
                let decoded = payload_is_text(data);
                let ack = ack_frame();
                let stored = table.write_value(CharacteristicId::PostLogin, &ack);
                proof {
                    assert(stored is Ok);
                }
                EventOutcome {
                    reply: true,
                    notify: Some(
                        Notification { characteristic: CharacteristicId::PostLogin, payload: ack },
                    ),
                    disconnect_reason: None,
                    login_text: Some(decoded),
                }
            } else if *handle == TEMPERATURE_HANDLE {
                if data.len() > 0 {
                    let mut v: Vec<u8> = Vec::new();
                    v.push(data[0]);
                    let stored = table.write_value(CharacteristicId::Temperature, &v);
                    proof {
                        assert(stored is Ok);
                        assert(v@ =~= seq![event@->Write_data[0]]);
                    }
                } else {
                    // An empty sensor write is a warning, not an error:
                    // nothing is stored and the connection continues.
                }
                EventOutcome {
                    reply: true,
                    notify: None,
                    disconnect_reason: None,
                    login_text: None,
                }
            } else if *handle == POST_TICKETS_HANDLE {
                let framed = frame_payload(data, 20);
                let stored = table.write_value(CharacteristicId::PostTickets, &framed);
                proof {
                    assert(stored is Ok);
                }
                EventOutcome {
                    reply: true,
                    notify: None,
                    disconnect_reason: None,
                    login_text: None,
                }
            } else {
                // A write to a handle without write handling (including the
                // outbound ticket channel) stores nothing; the protocol turn
                // is still completed with a reply.
                EventOutcome {
                    reply: true,
                    notify: None,
                    disconnect_reason: None,
                    login_text: None,
                }
            }
        },
        GattEvent::Disconnected { reason } => EventOutcome {
            reply: false,
            notify: None,
            disconnect_reason: Some(*reason),
            login_text: None,
        },
        GattEvent::Other => EventOutcome {
            reply: false,
            notify: None,
            disconnect_reason: None,
            login_text: None,
        },
    }
}

/// The views of a sequence of events.
pub open spec fn spec_events_view(s: Seq<GattEvent>) -> Seq<EventModel> {
    s.map_values(|e: GattEvent| e@)
}

/// The table after dispatching events in order, stopping at the first
/// disconnect.
pub open spec fn spec_run_events(m: TableModel, es: Seq<EventModel>) -> TableModel
    decreases es.len(),
{
    if es.len() == 0 {
        m
    } else if es[0] is Disconnected {
        m
    } else {
        spec_run_events(spec_handle_table(m, es[0]), es.drop_first())
    }
}

/// The reason of the first disconnect among the events, if any.
pub open spec fn spec_first_disconnect(es: Seq<EventModel>) -> Option<u8>
    decreases es.len(),
{
    if es.len() == 0 {
        None
    } else {
        match es[0] {
            EventModel::Disconnected { reason } => Some(reason),
            _ => spec_first_disconnect(es.drop_first()),
        }
    }
}

/// Dispatch a delivered sequence of events in order until the first
/// disconnect, the loop's only normal exit. Returns that disconnect's
/// reason, or `None` when the events ran out with the link still up. No
/// event — malformed, oversized or empty — aborts the loop early.
pub fn process_until_disconnect(table: &mut ServiceTable, events: &Vec<GattEvent>) -> (r: Option<
    u8,
>)
    requires
        old(table).wf(),
    ensures
        final(table)@ == spec_run_events(old(table)@, spec_events_view(events@)),
        final(table).wf(),
        r == spec_first_disconnect(spec_events_view(events@)),
{
    let ghost m0 = old(table)@;
    let ghost vs = spec_events_view(events@);
    proof {
        assert(vs.skip(0) =~= vs);
    }
    let mut i: usize = 0;
    while i < events.len()
        invariant
            i <= events@.len(),
            m0 == old(table)@,
            vs == spec_events_view(events@),
            vs.len() == events@.len(),
            table.wf(),
            spec_run_events(m0, vs) == spec_run_events(table@, vs.skip(i as int)),
            spec_first_disconnect(vs) == spec_first_disconnect(vs.skip(i as int)),
        decreases events@.len() - i,
    {
        let ghost t_before = table@;
        let outcome = handle_event(table, &events[i]);
        proof {
            assert(vs.skip(i as int)[0] == vs[i as int]);
            assert(vs[i as int] == events@[i as int]@);
            assert(vs.skip(i as int).drop_first() =~= vs.skip(i + 1));
        }
        match outcome.disconnect_reason {
            Some(reason) => {
                proof {
                    assert(vs.skip(i as int)[0] is Disconnected);
                    assert(spec_run_events(t_before, vs.skip(i as int)) == t_before);
                    assert(table@ == t_before);
                    assert(spec_first_disconnect(vs.skip(i as int)) == Some(reason));
                }
                return Some(reason);
            },
            None => {},
        }
        proof {
            assert(!(vs.skip(i as int)[0] is Disconnected));
            assert(spec_run_events(t_before, vs.skip(i as int)) == spec_run_events(
                spec_handle_table(t_before, vs[i as int]),
                vs.skip(i + 1),
            ));
            assert(table@ == spec_handle_table(t_before, vs[i as int]));
        }
        i = i + 1;
    }
    proof {
        assert(vs.skip(vs.len() as int) =~= Seq::<EventModel>::empty());
        assert(spec_run_events(table@, vs.skip(vs.len() as int)) == table@);
    }
    None
}

} // verus!
