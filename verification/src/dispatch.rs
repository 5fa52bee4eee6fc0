//! The dispatcher: what becomes of one inbound packet.
//!
//! A packet passes through the stages
//! `Received -> SizeResolved -> Emitted`. Between the stages stands work that
//! only the host can do: answering the size query, and running the handler.
//! The dispatcher therefore advances in steps. Each step takes the state
//! reached so far together with what the host came back with, and yields
//! either the next state and the call the host is to make, or the final
//! emission. A state is consumed by the step that leaves it, so the steps of
//! one packet cannot be taken out of order or twice.
//!
//! An emission is one of three kinds when all goes well: the packet was
//! `Handled` (a handler ran and returned bytes), `Dropped` (a handler ran and
//! returned nothing) or `PassedThrough` (no handler is registered for it).
//! Malformed packets are dropped silently; an unanswered size query ends the
//! packet at once.

use vstd::prelude::*;
use crate::error::PluginError;
use crate::framing::{frame_length, reply_bytes, resolve_size, spec_frame_length, spec_resolve_size};
use crate::registry::{HandlerEntry, PacketHandlerInfo, Registry, RegistryView, spec_select};

verus! {

/// What is emitted for a packet whose size the host could not resolve.
#[derive(Clone, Copy, Debug, PartialEq, Eq, Structural)]
pub enum FailurePolicy {
    /// Nothing is emitted.
    EmitNothing,
    /// The packet is emitted as it came, unexamined.
    ForwardOriginal,
}

/// How a packet reached its emission.
#[derive(Clone, Copy, Debug, PartialEq, Eq, Structural)]
pub enum Disposition {
    /// A handler ran and returned the bytes to emit.
    Handled,
    /// A handler ran and returned nothing: the packet is not forwarded.
    Dropped,
    /// No handler is registered for the packet: it is emitted unchanged.
    PassedThrough,
    /// The packet was empty or shorter than its own header: nothing is
    /// emitted.
    Malformed,
    /// The host did not resolve the packet's size: processing stopped there.
    Unresolved,
}

/// The end of one dispatch: the bytes to emit and how they came about.
#[derive(Clone, Debug, PartialEq, Eq)]
pub struct Emitted {
    pub disposition: Disposition,
    /// The frame length, where dispatch got as far as resolving it.
    pub frame_length: Option<u16>,
    pub output: Vec<u8>,
}

/// The mathematical model of an emission.
pub struct EmittedView {
    pub disposition: Disposition,
    pub frame_length: Option<u16>,
    pub output: Seq<u8>,
}

impl View for Emitted {
    type V = EmittedView;

    open spec fn view(&self) -> EmittedView {
        EmittedView {
            disposition: self.disposition,
            frame_length: self.frame_length,
            output: self.output@,
        }
    }
}

/// A call the host is to make: run the handler registered at position
/// `handler` under `name`, on the full bytes of the packet, with the resolved
/// frame length as context.
#[derive(Clone, Debug, PartialEq, Eq)]
pub struct Invocation {
    pub handler: usize,
    pub name: String,
    pub packet: Vec<u8>,
    pub frame_length: u16,
}

/// The mathematical model of an invocation.
pub struct InvocationView {
    pub handler: int,
    pub name: Seq<char>,
    pub packet: Seq<u8>,
    pub frame_length: u16,
}

impl View for Invocation {
    type V = InvocationView;

    open spec fn view(&self) -> InvocationView {
        InvocationView {
            handler: self.handler as int,
            name: self.name@,
            packet: self.packet@,
            frame_length: self.frame_length,
        }
    }
}

/// The state of a packet that has been received and whose size has been
/// asked for. Its view is the packet, which is never empty.
#[derive(Debug, PartialEq, Eq)]
pub struct Received {
    packet: Vec<u8>,
}

impl Received {
    #[verifier::type_invariant]
    spec fn holds_identifier(self) -> bool {
        self.packet@.len() > 0
    }

    /// The packet, which holds at least its identifier.
    pub fn packet(&self) -> (packet: &Vec<u8>)
        ensures
            packet@ == self@,
            self@.len() > 0,
    {
        proof {
            use_type_invariant(self);
        }
        &self.packet
    }
}

impl View for Received {
    type V = Seq<u8>;

    closed spec fn view(&self) -> Seq<u8> {
        self.packet@
    }
}

/// The state of a packet whose frame length is known and whose handler has
/// been called for. Its view is the frame length.
#[derive(Debug, PartialEq, Eq)]
pub struct SizeResolved {
    frame_length: u16,
}

impl View for SizeResolved {
    type V = u16;

    closed spec fn view(&self) -> u16 {
        self.frame_length
    }
}

/// What receiving a packet leads to.
#[derive(Debug, PartialEq, Eq)]
pub enum ReceiveStep {
    /// The host is to be asked for the size declared for `packet_id`.
    Resolve { state: Received, packet_id: u8 },
    /// The packet ends here.
    Emit(Emitted),
}

/// The mathematical model of a `ReceiveStep`.
pub enum ReceiveStepView {
    Resolve { state: Seq<u8>, packet_id: u8 },
    Emit(EmittedView),
}

impl View for ReceiveStep {
    type V = ReceiveStepView;

    open spec fn view(&self) -> ReceiveStepView {
        match *self {
            ReceiveStep::Resolve { state, packet_id } => ReceiveStepView::Resolve {
                state: state@,
                packet_id,
            },
            ReceiveStep::Emit(emitted) => ReceiveStepView::Emit(emitted@),
        }
    }
}

/// What the answer to the size query leads to.
#[derive(Debug, PartialEq, Eq)]
pub enum ResolveStep {
    /// The host is to make `call` and hand back what the handler returns.
    Invoke { state: SizeResolved, call: Invocation },
    /// The packet ends here.
    Emit(Emitted),
}

/// The mathematical model of a `ResolveStep`.
pub enum ResolveStepView {
    Invoke { state: u16, call: InvocationView },
    Emit(EmittedView),
}

impl View for ResolveStep {
    type V = ResolveStepView;

    open spec fn view(&self) -> ResolveStepView {
        match *self {
            ResolveStep::Invoke { state, call } => ResolveStepView::Invoke {
                state: state@,
                call: call@,
            },
            ResolveStep::Emit(emitted) => ResolveStepView::Emit(emitted@),
        }
    }
}

/// The emission for a malformed packet: nothing, silently.
pub open spec fn spec_malformed() -> EmittedView {
    EmittedView {
        disposition: Disposition::Malformed,
        frame_length: None,
        output: Seq::empty(),
    }
}

/// The emission for a packet whose size the host did not resolve.
pub open spec fn spec_unresolved(policy: FailurePolicy, packet: Seq<u8>) -> EmittedView {
    EmittedView {
        disposition: Disposition::Unresolved,
        frame_length: None,
        output: match policy {
            FailurePolicy::EmitNothing => Seq::empty(),
            FailurePolicy::ForwardOriginal => packet,
        },
    }
}

/// Receiving: an empty packet is malformed and ends at once; any other packet
/// has its first byte as identifier, and the size declared for it is asked
/// for.
pub open spec fn spec_receive(packet: Seq<u8>) -> ReceiveStepView {
    if packet.len() == 0 {
        ReceiveStepView::Emit(spec_malformed())
    } else {
        ReceiveStepView::Resolve { state: packet, packet_id: packet[0] }
    }
}

/// Resolving, for a non-empty `packet` and the host's `reply` to the size
/// query.
///
/// Without a usable reply the packet ends as `Unresolved`. Otherwise the frame
/// length follows from the declared size and the packet; a packet too short
/// for its header ends as `Malformed`. With the frame length known, the
/// packet goes to the handler registered last for its identifier, and passes
/// through unchanged where there is none.
pub open spec fn spec_size_resolved(
    entries: Seq<HandlerEntry>,
    policy: FailurePolicy,
    packet: Seq<u8>,
    reply: Option<Seq<u8>>,
) -> ResolveStepView {
    match spec_resolve_size(reply) {
        Err(_) => ResolveStepView::Emit(spec_unresolved(policy, packet)),
        Ok(declared) => match spec_frame_length(declared, packet) {
            Err(_) => ResolveStepView::Emit(spec_malformed()),
            Ok(length) => match spec_select(entries, packet[0]) {
                None => ResolveStepView::Emit(
                    EmittedView {
                        disposition: Disposition::PassedThrough,
                        frame_length: Some(length),
                        output: packet,
                    },
                ),
                Some(position) => ResolveStepView::Invoke {
                    state: length,
                    call: InvocationView {
                        handler: position,
                        name: entries[position].func_name,
                        packet,
                        frame_length: length,
                    },
                },
            },
        },
    }
}

/// Handling: whatever the handler returned is emitted; an empty return drops
/// the packet.
pub open spec fn spec_handled(frame_length: u16, output: Seq<u8>) -> EmittedView {
    EmittedView {
        disposition: if output.len() == 0 {
            Disposition::Dropped
        } else {
            Disposition::Handled
        },
        frame_length: Some(frame_length),
        output,
    }
}

/// The handler call that a dispatch of `packet` makes, if it makes one, given
/// the host's `reply` to the size query.
pub open spec fn spec_invocation(
    entries: Seq<HandlerEntry>,
    policy: FailurePolicy,
    packet: Seq<u8>,
    reply: Option<Seq<u8>>,
) -> Option<InvocationView> {
    match spec_receive(packet) {
        ReceiveStepView::Emit(_) => None,
        ReceiveStepView::Resolve { state, .. } => match spec_size_resolved(
            entries,
            policy,
            state,
            reply,
        ) {
            ResolveStepView::Emit(_) => None,
            ResolveStepView::Invoke { call, .. } => Some(call),
        },
    }
}

/// The emission that a whole dispatch of `packet` ends in, given the host's
/// `reply` to the size query and what the handler returns for each call.
pub open spec fn spec_dispatch(
    entries: Seq<HandlerEntry>,
    policy: FailurePolicy,
    packet: Seq<u8>,
    reply: Option<Seq<u8>>,
    handler: spec_fn(InvocationView) -> Seq<u8>,
) -> EmittedView {
    match spec_receive(packet) {
        ReceiveStepView::Emit(emitted) => emitted,
        ReceiveStepView::Resolve { state, .. } => match spec_size_resolved(
            entries,
            policy,
            state,
            reply,
        ) {
            ResolveStepView::Emit(emitted) => emitted,
            ResolveStepView::Invoke { state, call } => spec_handled(state, handler(call)),
        },
    }
}

/// The mathematical model of a dispatcher.
pub struct DispatcherView {
    pub registry: RegistryView,
    pub policy: FailurePolicy,
}

/// The registry together with the policy for unresolved sizes.
#[derive(Debug, PartialEq, Eq)]
pub struct Dispatcher {
    registry: Registry,
    policy: FailurePolicy,
}

impl View for Dispatcher {
    type V = DispatcherView;

    closed spec fn view(&self) -> DispatcherView {
        DispatcherView { registry: self.registry@, policy: self.policy }
    }
}

impl Emitted {
    /// The failure that ended the packet, if one did.
    pub fn error(&self) -> (failure: Option<PluginError>)
        ensures
            failure == match self.disposition {
                Disposition::Malformed => Some(PluginError::MalformedPacket),
                Disposition::Unresolved => Some(PluginError::ResolutionFailure),
                _ => None::<PluginError>,
            },
    {
        match self.disposition {
            Disposition::Malformed => Some(PluginError::MalformedPacket),
            Disposition::Unresolved => Some(PluginError::ResolutionFailure),
            _ => None,
        }
    }
}

impl Emitted {
    /// What the host is told of the packet: the bytes to emit, or the
    /// failure. Only an unresolved size is reported as a failure; a malformed
    /// packet is absorbed and yields its (empty) emission like any other.
    pub fn into_result(self) -> (signal: Result<Vec<u8>, PluginError>)
        ensures
            self.disposition == Disposition::Unresolved ==> signal == Err::<Vec<u8>, PluginError>(
                PluginError::ResolutionFailure,
            ),
            self.disposition != Disposition::Unresolved ==> signal == Ok::<Vec<u8>, PluginError>(
                self.output,
            ),
    {
        match self.disposition {
            Disposition::Unresolved => Err(PluginError::ResolutionFailure),
            _ => Ok(self.output),
        }
    }
}

impl SizeResolved {
    /// The frame length that was resolved for the packet.
    pub fn frame_length(&self) -> (length: u16)
        ensures
            length == self@,
    {
        self.frame_length
    }
}

impl Dispatcher {
    /// A dispatcher with an empty, open registry.
    pub fn new(policy: FailurePolicy) -> (dispatcher: Dispatcher)
        ensures
            dispatcher@.registry.entries == Seq::<HandlerEntry>::empty(),
            !dispatcher@.registry.sealed,
            dispatcher@.policy == policy,
    {
        Dispatcher { registry: Registry::new(), policy }
    }

    /// The table of registrations.
    pub fn registry(&self) -> (registry: &Registry)
        ensures
            registry@ == self@.registry,
    {
        &self.registry
    }

    /// What is emitted for a packet whose size the host does not resolve.
    pub fn policy(&self) -> (policy: FailurePolicy)
        ensures
            policy == self@.policy,
    {
        self.policy
    }

    /// Registers `info`, unless a packet has been received already: then the
    /// registration is refused with `RegistrationClosed` and nothing changes.
    pub fn register(&mut self, info: PacketHandlerInfo) -> (outcome: Result<(), PluginError>)
        ensures
            final(self)@.policy == old(self)@.policy,
            final(self)@.registry.sealed == old(self)@.registry.sealed,
            old(self)@.registry.sealed ==> outcome == Err::<(), PluginError>(
                PluginError::RegistrationClosed,
            ) && final(self)@.registry.entries == old(self)@.registry.entries,
            !old(self)@.registry.sealed ==> outcome == Ok::<(), PluginError>(())
                && final(self)@.registry.entries == old(self)@.registry.entries.push(info@),
    {
        self.registry.register(info)
    }

    /// Takes in a packet. From here on the registry is sealed.
    ///
    /// An empty packet is dropped at once as malformed; for any other the
    /// host is to be asked for the size declared for its first byte.
    pub fn receive(&mut self, packet: Vec<u8>) -> (step: ReceiveStep)
        ensures
            step@ == spec_receive(packet@),
            final(self)@.registry.sealed,
            final(self)@.registry.entries == old(self)@.registry.entries,
            final(self)@.policy == old(self)@.policy,
    {
        self.registry.seal();
        if packet.len() == 0 {
            assert(packet@ =~= Seq::<u8>::empty());
            ReceiveStep::Emit(
                Emitted { disposition: Disposition::Malformed, frame_length: None, output: packet },
            )
        } else {
            let packet_id: u8 = packet[0];
            ReceiveStep::Resolve { state: Received { packet }, packet_id }
        }
    }

    /// Goes on with a received packet once the host has answered the size
    /// query; `None` stands for a query that the host did not answer.
    pub fn size_resolved(&self, state: Received, reply: Option<Vec<u8>>) -> (step: ResolveStep)
        ensures
            state@.len() > 0,
            step@ == spec_size_resolved(
                self@.registry.entries,
                self@.policy,
                state@,
                reply_bytes(reply),
            ),
            spec_invocation(self@.registry.entries, self@.policy, state@, reply_bytes(reply))
                == match step {
                ResolveStep::Invoke { call, .. } => Some(call@),
                ResolveStep::Emit(_) => None,
            },
    {
        proof {
            use_type_invariant(&state);
        }
        let packet = state.packet;
        let ghost entries = self@.registry.entries;
        let declared: u16 = match resolve_size(&reply) {
            Ok(declared) => declared,
            Err(_) => {
                let output: Vec<u8> = match self.policy {
                    FailurePolicy::EmitNothing => Vec::new(),
                    FailurePolicy::ForwardOriginal => packet,
                };
                return ResolveStep::Emit(
                    Emitted { disposition: Disposition::Unresolved, frame_length: None, output },
                );
            },
        };
        let length: u16 = match frame_length(declared, packet.as_slice()) {
            Ok(length) => length,
            Err(_) => {
                return ResolveStep::Emit(
                    Emitted {
                        disposition: Disposition::Malformed,
                        frame_length: None,
                        output: Vec::new(),
                    },
                );
            },
        };
        match self.registry.select(packet[0]) {
            None => ResolveStep::Emit(
                Emitted {
                    disposition: Disposition::PassedThrough,
                    frame_length: Some(length),
                    output: packet,
                },
            ),
            Some(position) => {
                proof {
                    crate::registry::lemma_select(entries, packet@[0]);
                }
                let name = match self.registry.get(position) {
                    Some(info) => info.func_name.clone(),
                    None => String::new(),
                };
                ResolveStep::Invoke {
                    state: SizeResolved { frame_length: length },
                    call: Invocation { handler: position, name, packet, frame_length: length },
                }
            },
        }
    }

    /// Ends a packet with what its handler returned.
    pub fn handled(state: SizeResolved, output: Vec<u8>) -> (emitted: Emitted)
        ensures
            emitted@ == spec_handled(state@, output@),
    {
        let disposition = if output.len() == 0 {
            Disposition::Dropped
        } else {
            Disposition::Handled
        };
        Emitted { disposition, frame_length: Some(state.frame_length), output }
    }
}

} // verus!
