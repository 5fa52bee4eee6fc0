//! The plug-in itself: its handlers and the hooks the host calls.
//!
//! The plug-in registers one handler, for packet `0x73`, which lets the
//! packet through as it came.

use vstd::prelude::*;
use crate::dispatch::{
    Dispatcher, Emitted, FailurePolicy, Invocation, InvocationView, Received, ReceiveStep,
    ResolveStep, spec_dispatch, spec_receive,
};
use crate::entity::{Graphic, WriteRequest, set_entity_graphic, spec_serial_key};
use crate::error::PluginError;
use crate::framing::reply_bytes;
use crate::registry::{HandlerEntry, PacketHandlerInfo};

verus! {

/// The identifier of the packet the plug-in's handler is registered for.
pub const HANDLED_PACKET: u8 = 0x73;

/// The graphic the plug-in gives the player.
pub const PLAYER_GRAPHIC: u16 = 0x12;

/// The name under which the plug-in's handler is registered.
pub open spec fn spec_handler_name() -> Seq<char> {
    "handler_0x73"@
}

/// What the plug-in's handlers return for a call: each of them hands the
/// packet back as it came, and so does a call under a name that the plug-in
/// has no handler for.
pub open spec fn spec_run_handler(call: InvocationView) -> Seq<u8> {
    call.packet
}

/// Registers the handler named `fn_name` for packets with `packet_id`.
///
/// Refused with `RegistrationClosed`, and without effect, once a packet has
/// been received.
pub fn register_handler(dispatcher: &mut Dispatcher, packet_id: u8, fn_name: &str) -> (outcome:
    Result<(), PluginError>)
    ensures
        final(dispatcher)@.policy == old(dispatcher)@.policy,
        final(dispatcher)@.registry.sealed == old(dispatcher)@.registry.sealed,
        old(dispatcher)@.registry.sealed ==> outcome == Err::<(), PluginError>(
            PluginError::RegistrationClosed,
        ) && final(dispatcher)@.registry.entries == old(dispatcher)@.registry.entries,
        !old(dispatcher)@.registry.sealed ==> outcome == Ok::<(), PluginError>(())
            && final(dispatcher)@.registry.entries == old(dispatcher)@.registry.entries.push(
            HandlerEntry { packet_id, func_name: fn_name@ },
        ),
{
    dispatcher.register(PacketHandlerInfo { packet_id, func_name: fn_name.to_owned() })
}

/// Makes all of the plug-in's registrations: `handler_0x73` for packet
/// `0x73`.
pub fn register_all_packets(dispatcher: &mut Dispatcher) -> (outcome: Result<(), PluginError>)
    ensures
        final(dispatcher)@.policy == old(dispatcher)@.policy,
        final(dispatcher)@.registry.sealed == old(dispatcher)@.registry.sealed,
        old(dispatcher)@.registry.sealed ==> outcome == Err::<(), PluginError>(
            PluginError::RegistrationClosed,
        ) && final(dispatcher)@.registry.entries == old(dispatcher)@.registry.entries,
        !old(dispatcher)@.registry.sealed ==> outcome == Ok::<(), PluginError>(())
            && final(dispatcher)@.registry.entries == old(dispatcher)@.registry.entries.push(
            HandlerEntry { packet_id: HANDLED_PACKET, func_name: spec_handler_name() },
        ),
{
    register_handler(dispatcher, HANDLED_PACKET, "handler_0x73")
}

/// Sets the plug-in up: a dispatcher with the given policy whose registry
/// holds the plug-in's registrations and is still open.
pub fn on_init(policy: FailurePolicy) -> (dispatcher: Dispatcher)
    ensures
        dispatcher@.policy == policy,
        !dispatcher@.registry.sealed,
        dispatcher@.registry.entries == seq![
            HandlerEntry { packet_id: HANDLED_PACKET, func_name: spec_handler_name() },
        ],
{
    let mut dispatcher = Dispatcher::new(policy);
    let _ = register_all_packets(&mut dispatcher);
    assert(dispatcher@.registry.entries =~= seq![
        HandlerEntry { packet_id: HANDLED_PACKET, func_name: spec_handler_name() },
    ]);
    dispatcher
}

/// The periodic hook. It is kept for later use and changes nothing.
pub fn on_update(dispatcher: &mut Dispatcher)
    ensures
        *final(dispatcher) == *old(dispatcher),
{
}

/// The event hook. It is kept for later use and changes nothing.
pub fn on_event(dispatcher: &mut Dispatcher)
    ensures
        *final(dispatcher) == *old(dispatcher),
{
}

/// The handler for packet `0x73`: the packet goes on unchanged.
pub fn handler_0x73(packet: Vec<u8>) -> (output: Vec<u8>)
    ensures
        output@ == packet@,
{
    packet
}

/// Runs the handler that `call` names and returns what it returns. A call
/// under a name the plug-in has no handler for leaves the packet as it is.
pub fn run_handler(call: Invocation) -> (output: Vec<u8>)
    ensures
        output@ == spec_run_handler(call@),
{
    let known = "handler_0x73".to_owned();
    if call.name == known {
        handler_0x73(call.packet)
    } else {
        call.packet
    }
}

/// The inbound-packet hook: takes in a packet and says whether the host is
/// to be asked for its size. From here on no handler can be registered.
pub fn packet_recv(dispatcher: &mut Dispatcher, packet: Vec<u8>) -> (step: ReceiveStep)
    ensures
        step@ == spec_receive(packet@),
        final(dispatcher)@.registry.sealed,
        final(dispatcher)@.registry.entries == old(dispatcher)@.registry.entries,
        final(dispatcher)@.policy == old(dispatcher)@.policy,
{
    dispatcher.receive(packet)
}

/// Finishes a packet once the host has answered the size query (`None`: it
/// did not): resolves the frame length, runs the plug-in's handler where one
/// is registered for the packet, and yields the emission. Together with
/// `packet_recv` this is one whole dispatch, with the plug-in's own handlers
/// as the handlers.
pub fn packet_resolved(dispatcher: &Dispatcher, state: Received, reply: Option<Vec<u8>>) -> (emitted:
    Emitted)
    ensures
        state@.len() > 0,
        emitted@ == spec_dispatch(
            dispatcher@.registry.entries,
            dispatcher@.policy,
            state@,
            reply_bytes(reply),
            |call: InvocationView| spec_run_handler(call),
        ),
{
    match dispatcher.size_resolved(state, reply) {
        ResolveStep::Emit(ended) => ended,
        ResolveStep::Invoke { state: resolved, call } => {
            let output = run_handler(call);
            Dispatcher::handled(resolved, output)
        },
    }
}

/// The write the plug-in makes once a packet has gone through: the player,
/// whose serial is `player`, gets the graphic `PLAYER_GRAPHIC`.
pub fn mark_player(player: u32) -> (request: WriteRequest<Graphic>)
    ensures
        request.key@ == spec_serial_key(player),
        request.value == (Graphic { value: PLAYER_GRAPHIC }),
{
    set_entity_graphic(player, Graphic { value: PLAYER_GRAPHIC })
}

} // verus!
