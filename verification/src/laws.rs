//! What holds of every dispatch, proved from the definitions of the steps.

use vstd::prelude::*;
use crate::dispatch::{
    Disposition, FailurePolicy, InvocationView, ResolveStepView, spec_dispatch, spec_invocation,
    spec_size_resolved,
};
use crate::entity::{spec_player_serial, spec_serial_key};
use crate::framing::{
    VARIABLE_LENGTH, lemma_u16_from_bytes_value, spec_frame_length, spec_resolve_size,
    spec_u16_from_bytes,
};
use crate::registry::{HandlerEntry, spec_handlers_for, spec_select};

verus! {

/// A declared size other than the variable-length marker is the frame
/// length, exactly, whatever the packet holds: two packets of any content
/// get the same frame length, and a dispatch that resolves the size reports
/// it.
pub proof fn law_fixed_size_is_frame_length(
    entries: Seq<HandlerEntry>,
    policy: FailurePolicy,
    packet: Seq<u8>,
    other: Seq<u8>,
    reply: Option<Seq<u8>>,
    handler: spec_fn(InvocationView) -> Seq<u8>,
)
    requires
        spec_resolve_size(reply) is Ok,
        spec_resolve_size(reply)->Ok_0 != VARIABLE_LENGTH,
    ensures
        spec_frame_length(spec_resolve_size(reply)->Ok_0, packet) == Ok::<u16, crate::error::PluginError>(
            spec_resolve_size(reply)->Ok_0,
        ),
        spec_frame_length(spec_resolve_size(reply)->Ok_0, packet) == spec_frame_length(
            spec_resolve_size(reply)->Ok_0,
            other,
        ),
        packet.len() > 0 ==> spec_dispatch(entries, policy, packet, reply, handler).frame_length
            == Some(spec_resolve_size(reply)->Ok_0),
{
}

/// Where the declared size is the variable-length marker, the frame length
/// is the second byte of the packet shifted left by eight, or-ed with the
/// third: 256 times the second byte plus the third.
pub proof fn law_variable_size_is_read_from_header(
    entries: Seq<HandlerEntry>,
    policy: FailurePolicy,
    packet: Seq<u8>,
    reply: Option<Seq<u8>>,
    handler: spec_fn(InvocationView) -> Seq<u8>,
)
    requires
        spec_resolve_size(reply) == Ok::<u16, crate::error::PluginError>(VARIABLE_LENGTH),
        packet.len() >= 3,
    ensures
        spec_frame_length(VARIABLE_LENGTH, packet) == Ok::<u16, crate::error::PluginError>(
            spec_u16_from_bytes(packet[1], packet[2]),
        ),
        spec_u16_from_bytes(packet[1], packet[2]) == packet[1] * 256 + packet[2],
        spec_dispatch(entries, policy, packet, reply, handler).frame_length == Some(
            spec_u16_from_bytes(packet[1], packet[2]),
        ),
{
    lemma_u16_from_bytes_value(packet[1], packet[2]);
}

/// An empty packet always ends in an empty emission, and no handler is
/// called for it, whatever is registered and whatever the host would answer.
pub proof fn law_empty_packet_emits_nothing(
    entries: Seq<HandlerEntry>,
    policy: FailurePolicy,
    reply: Option<Seq<u8>>,
    handler: spec_fn(InvocationView) -> Seq<u8>,
)
    ensures
        spec_dispatch(entries, policy, Seq::<u8>::empty(), reply, handler).output
            == Seq::<u8>::empty(),
        spec_dispatch(entries, policy, Seq::<u8>::empty(), reply, handler).disposition
            == Disposition::Malformed,
        spec_invocation(entries, policy, Seq::<u8>::empty(), reply).is_none(),
{
}

/// Registering leaves every earlier registration where it was and adds the
/// new one at the end: the handlers registered for the new identifier are
/// those from before followed by the new one, and for every other identifier
/// they are those from before.
pub proof fn law_registration_appends(
    entries: Seq<HandlerEntry>,
    added: HandlerEntry,
    packet_id: u8,
)
    ensures
        spec_handlers_for(entries.push(added), packet_id) == if packet_id == added.packet_id {
            spec_handlers_for(entries, packet_id).push(entries.len() as int)
        } else {
            spec_handlers_for(entries, packet_id)
        },
        spec_select(entries.push(added), packet_id) == if packet_id == added.packet_id {
            Some(entries.len() as int)
        } else {
            spec_select(entries, packet_id)
        },
{
    let after = entries.push(added);
    assert(after.drop_last() =~= entries);
    assert(after.last() == added);
}

/// After a handler has been registered for an identifier, a packet with that
/// identifier whose frame length resolves leads to exactly one call, and it
/// is a call of that handler, on the packet as it came and with the resolved
/// frame length. A packet with any other identifier leads to the same step
/// as before the registration, so never to a call of that handler.
pub proof fn law_registered_handler_is_invoked(
    entries: Seq<HandlerEntry>,
    added: HandlerEntry,
    policy: FailurePolicy,
    packet: Seq<u8>,
    reply: Option<Seq<u8>>,
)
    requires
        packet.len() > 0,
        spec_resolve_size(reply) is Ok,
        spec_frame_length(spec_resolve_size(reply)->Ok_0, packet) is Ok,
    ensures
        packet[0] == added.packet_id ==> spec_invocation(
            entries.push(added),
            policy,
            packet,
            reply,
        ) == Some(
            InvocationView {
                handler: entries.len() as int,
                name: added.func_name,
                packet,
                frame_length: spec_frame_length(spec_resolve_size(reply)->Ok_0, packet)->Ok_0,
            },
        ),
        packet[0] != added.packet_id ==> spec_size_resolved(
            entries.push(added),
            policy,
            packet,
            reply,
        ) == spec_size_resolved(entries, policy, packet, reply),
        packet[0] != added.packet_id ==> match spec_invocation(
            entries.push(added),
            policy,
            packet,
            reply,
        ) {
            Some(call) => call.handler != entries.len(),
            None => true,
        },
{
    law_registration_appends(entries, added, packet[0]);
    if packet[0] != added.packet_id {
        crate::registry::lemma_select(entries, packet[0]);
        let after = entries.push(added);
        match spec_select(entries, packet[0]) {
            Some(position) => {
                assert(after[position] == entries[position]);
            },
            None => {},
        }
    }
}

/// A handler that returns no bytes drops the packet: the emission is empty.
pub proof fn law_empty_return_drops(
    entries: Seq<HandlerEntry>,
    policy: FailurePolicy,
    packet: Seq<u8>,
    reply: Option<Seq<u8>>,
    handler: spec_fn(InvocationView) -> Seq<u8>,
)
    requires
        spec_invocation(entries, policy, packet, reply) is Some,
        handler(spec_invocation(entries, policy, packet, reply)->Some_0).len() == 0,
    ensures
        spec_dispatch(entries, policy, packet, reply, handler).output == Seq::<u8>::empty(),
        spec_dispatch(entries, policy, packet, reply, handler).disposition == Disposition::Dropped,
{
    assert(spec_dispatch(entries, policy, packet, reply, handler).output =~= Seq::<u8>::empty());
}

/// A handler that returns the bytes it was given changes nothing that can be
/// seen from outside: the bytes emitted and the frame length reported are
/// those of the same dispatch with no handler registered at all, and the
/// bytes emitted for a packet that reached the handler are the packet.
pub proof fn law_identity_handler_is_pass_through(
    entries: Seq<HandlerEntry>,
    policy: FailurePolicy,
    packet: Seq<u8>,
    reply: Option<Seq<u8>>,
    handler: spec_fn(InvocationView) -> Seq<u8>,
)
    requires
        spec_invocation(entries, policy, packet, reply) matches Some(call) ==> handler(call)
            == call.packet,
    ensures
        spec_dispatch(entries, policy, packet, reply, handler).output == spec_dispatch(
            Seq::<HandlerEntry>::empty(),
            policy,
            packet,
            reply,
            handler,
        ).output,
        spec_dispatch(entries, policy, packet, reply, handler).frame_length == spec_dispatch(
            Seq::<HandlerEntry>::empty(),
            policy,
            packet,
            reply,
            handler,
        ).frame_length,
        spec_invocation(entries, policy, packet, reply) is Some ==> spec_dispatch(
            entries,
            policy,
            packet,
            reply,
            handler,
        ).output == packet,
{
    assert(spec_handlers_for(Seq::<HandlerEntry>::empty(), packet[0]).len() == 0);
}

/// A serial survives the trip to the host and back: the key made from it
/// holds four bytes, and a reply that echoes the key reads as the serial
/// again.
pub proof fn law_serial_key_round_trip(serial: u32)
    ensures
        spec_serial_key(serial).len() == 4,
        spec_player_serial(Some(spec_serial_key(serial))) == serial,
{
    let key = spec_serial_key(serial);
    assert(key.len() == 4);
    assert(key[0] == (serial & 0xff) as u8);
    assert(key[1] == ((serial >> 8) & 0xff) as u8);
    assert(key[2] == ((serial >> 16) & 0xff) as u8);
    assert(key[3] == ((serial >> 24) & 0xff) as u8);
    assert((((serial & 0xff) as u8) as u32) | ((((serial >> 8) & 0xff) as u8) as u32) << 8 | ((((
    serial >> 16) & 0xff) as u8) as u32) << 16 | ((((serial >> 24) & 0xff) as u8) as u32) << 24
        == serial) by (bit_vector);
}

} // verus!
