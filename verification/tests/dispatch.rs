use packet_plugin::dispatch::{
    Dispatcher, Disposition, Emitted, FailurePolicy, Invocation, ReceiveStep, ResolveStep,
};
use packet_plugin::entity::{get_entity_graphic, serial_key, set_entity_graphic, Graphic};
use packet_plugin::error::PluginError;
use packet_plugin::framing::size_request;
use packet_plugin::registry::PacketHandlerInfo;

fn info(packet_id: u8, name: &str) -> PacketHandlerInfo {
    PacketHandlerInfo { packet_id, func_name: name.to_string() }
}

/// A stand-in for the host: a size table, and a record of what it was asked
/// to do.
struct Host {
    sizes: Vec<(u8, u16)>,
    size_queries: Vec<Vec<u8>>,
    calls: Vec<Invocation>,
}

impl Host {
    fn new(sizes: &[(u8, u16)]) -> Host {
        Host { sizes: sizes.to_vec(), size_queries: Vec::new(), calls: Vec::new() }
    }

    fn size(&mut self, request: Vec<u8>) -> Option<Vec<u8>> {
        self.size_queries.push(request.clone());
        let id = *request.first()?;
        let size = self.sizes.iter().find(|(known, _)| *known == id)?.1;
        Some(size.to_le_bytes().to_vec())
    }
}

/// Carries one packet through all its steps, with `handler` standing for
/// whatever the invoked handler returns.
fn run(
    dispatcher: &mut Dispatcher,
    host: &mut Host,
    packet: Vec<u8>,
    handler: &dyn Fn(&Invocation) -> Vec<u8>,
) -> Emitted {
    match dispatcher.receive(packet) {
        ReceiveStep::Emit(emitted) => emitted,
        ReceiveStep::Resolve { state, packet_id } => {
            let reply = host.size(size_request(packet_id));
            match dispatcher.size_resolved(state, reply) {
                ResolveStep::Emit(emitted) => emitted,
                ResolveStep::Invoke { state, call } => {
                    let output = handler(&call);
                    host.calls.push(call);
                    Dispatcher::handled(state, output)
                }
            }
        }
    }
}

fn echo(call: &Invocation) -> Vec<u8> {
    call.packet.clone()
}

fn nothing(_call: &Invocation) -> Vec<u8> {
    Vec::new()
}

#[test]
fn new_dispatcher_is_open_and_empty() {
    let dispatcher = Dispatcher::new(FailurePolicy::ForwardOriginal);
    assert_eq!(dispatcher.policy(), FailurePolicy::ForwardOriginal);
    assert_eq!(dispatcher.registry().len(), 0);
    assert!(!dispatcher.registry().is_sealed());
    let dispatcher = Dispatcher::new(FailurePolicy::EmitNothing);
    assert_eq!(dispatcher.policy(), FailurePolicy::EmitNothing);
}

#[test]
fn empty_packet_emits_nothing_and_asks_nothing() {
    let mut dispatcher = Dispatcher::new(FailurePolicy::ForwardOriginal);
    dispatcher.register(info(0x00, "zero")).unwrap();
    dispatcher.register(info(0x73, "h")).unwrap();
    let mut host = Host::new(&[(0x00, 1), (0x73, 5)]);
    let emitted = run(&mut dispatcher, &mut host, vec![], &echo);
    assert_eq!(
        emitted,
        Emitted { disposition: Disposition::Malformed, frame_length: None, output: vec![] }
    );
    assert_eq!(emitted.error(), Some(PluginError::MalformedPacket));
    assert!(host.size_queries.is_empty());
    assert!(host.calls.is_empty());
}

#[test]
fn empty_packet_ends_at_the_first_step() {
    let mut dispatcher = Dispatcher::new(FailurePolicy::EmitNothing);
    let step = dispatcher.receive(vec![]);
    assert_eq!(
        step,
        ReceiveStep::Emit(Emitted {
            disposition: Disposition::Malformed,
            frame_length: None,
            output: vec![],
        })
    );
}

#[test]
fn first_byte_is_the_identifier_asked_for() {
    let mut dispatcher = Dispatcher::new(FailurePolicy::EmitNothing);
    match dispatcher.receive(vec![0xF3, 0x00, 0x0A]) {
        ReceiveStep::Resolve { packet_id, .. } => assert_eq!(packet_id, 0xF3),
        ReceiveStep::Emit(_) => panic!("a packet with an identifier must be resolved"),
    }
    let mut host = Host::new(&[(0x73, 5)]);
    run(&mut dispatcher, &mut host, vec![0x73, 1, 2, 3, 4], &echo);
    assert_eq!(host.size_queries, vec![vec![0x73]]);
}

#[test]
fn registered_handler_is_invoked_exactly_once() {
    let mut dispatcher = Dispatcher::new(FailurePolicy::EmitNothing);
    dispatcher.register(info(0x10, "other")).unwrap();
    dispatcher.register(info(0x73, "h")).unwrap();
    let mut host = Host::new(&[(0x73, 5), (0x10, 2)]);
    let packet = vec![0x73, 1, 2, 3, 4];
    let emitted = run(&mut dispatcher, &mut host, packet.clone(), &echo);
    assert_eq!(
        host.calls,
        vec![Invocation { handler: 1, name: "h".to_string(), packet: packet.clone(), frame_length: 5 }]
    );
    assert_eq!(emitted.disposition, Disposition::Handled);
    assert_eq!(emitted.output, packet);
    assert_eq!(emitted.frame_length, Some(5));
    assert_eq!(emitted.error(), None);
}

#[test]
fn handler_is_never_invoked_for_another_identifier() {
    let mut dispatcher = Dispatcher::new(FailurePolicy::EmitNothing);
    dispatcher.register(info(0x73, "h")).unwrap();
    let sizes: Vec<(u8, u16)> = (0..=255u8).map(|id| (id, 4)).collect();
    let mut host = Host::new(&sizes);
    for id in 0..=255u8 {
        if id == 0x73 {
            continue;
        }
        let packet = vec![id, 0x73, 0x73, 0x73];
        let emitted = run(&mut dispatcher, &mut host, packet.clone(), &nothing);
        assert_eq!(
            emitted,
            Emitted {
                disposition: Disposition::PassedThrough,
                frame_length: Some(4),
                output: packet,
            }
        );
    }
    assert!(host.calls.is_empty());
    assert_eq!(host.size_queries.len(), 255);
}

#[test]
fn handler_returning_nothing_drops_the_packet() {
    let mut dispatcher = Dispatcher::new(FailurePolicy::ForwardOriginal);
    dispatcher.register(info(0x73, "h")).unwrap();
    let mut host = Host::new(&[(0x73, 5)]);
    let emitted = run(&mut dispatcher, &mut host, vec![0x73, 1, 2, 3, 4], &nothing);
    assert_eq!(
        emitted,
        Emitted { disposition: Disposition::Dropped, frame_length: Some(5), output: vec![] }
    );
    assert_eq!(emitted.error(), None);
    assert_eq!(host.calls.len(), 1);
}

#[test]
fn handler_returning_its_input_is_a_pass_through() {
    let packet = vec![0x73, 9, 8, 7, 6];
    let mut with_handler = Dispatcher::new(FailurePolicy::EmitNothing);
    with_handler.register(info(0x73, "h")).unwrap();
    let mut without_handler = Dispatcher::new(FailurePolicy::EmitNothing);
    let mut host = Host::new(&[(0x73, 5)]);
    let handled = run(&mut with_handler, &mut host, packet.clone(), &echo);
    let passed = run(&mut without_handler, &mut host, packet.clone(), &echo);
    assert_eq!(handled.output, packet);
    assert_eq!(handled.output, passed.output);
    assert_eq!(handled.frame_length, passed.frame_length);
    assert_eq!(passed.disposition, Disposition::PassedThrough);
    assert_eq!(host.calls.len(), 1);
}

#[test]
fn handler_may_change_the_length() {
    let mut dispatcher = Dispatcher::new(FailurePolicy::EmitNothing);
    dispatcher.register(info(0x73, "h")).unwrap();
    let mut host = Host::new(&[(0x73, 5)]);
    let longer = run(&mut dispatcher, &mut host, vec![0x73, 1, 2, 3, 4], &|call| {
        let mut bytes = call.packet.clone();
        bytes.push(0xAA);
        bytes.push(0xBB);
        bytes
    });
    assert_eq!(longer.output, vec![0x73, 1, 2, 3, 4, 0xAA, 0xBB]);
    assert_eq!(longer.disposition, Disposition::Handled);
    assert_eq!(longer.frame_length, Some(5));
    let shorter = run(&mut dispatcher, &mut host, vec![0x73, 1, 2, 3, 4], &|call| {
        call.packet[..2].to_vec()
    });
    assert_eq!(shorter.output, vec![0x73, 1]);
    assert_eq!(shorter.disposition, Disposition::Handled);
    let rewritten = run(&mut dispatcher, &mut host, vec![0x73, 1, 2, 3, 4], &|_| vec![0x01]);
    assert_eq!(rewritten.output, vec![0x01]);
}

#[test]
fn scenario_fixed_size_five_and_a_handler_that_drops() {
    let mut dispatcher = Dispatcher::new(FailurePolicy::EmitNothing);
    dispatcher.register(info(0x73, "handler_0x73")).unwrap();
    let mut host = Host::new(&[(0x73, 5)]);
    for packet in [vec![0x73], vec![0x73, 0, 0, 0, 0], vec![0x73, 1, 2, 3, 4, 5, 6, 7, 8, 9]] {
        let emitted = run(&mut dispatcher, &mut host, packet.clone(), &nothing);
        let call = host.calls.last().unwrap();
        assert_eq!(call.frame_length, 5);
        assert_eq!(call.packet, packet);
        assert_eq!(call.name, "handler_0x73");
        assert_eq!(emitted.frame_length, Some(5));
        assert_eq!(emitted.output, Vec::<u8>::new());
        assert_eq!(emitted.disposition, Disposition::Dropped);
    }
    assert_eq!(host.calls.len(), 3);
}

#[test]
fn scenario_variable_size_with_header_zero_ten() {
    let mut dispatcher = Dispatcher::new(FailurePolicy::EmitNothing);
    dispatcher.register(info(0xF3, "h")).unwrap();
    let mut host = Host::new(&[(0xF3, 0xFFFF)]);
    let packet = vec![0xF3, 0x00, 0x0A, 1, 2, 3, 4, 5, 6, 7];
    let emitted = run(&mut dispatcher, &mut host, packet.clone(), &echo);
    assert_eq!(host.calls[0].frame_length, 10);
    assert_eq!(emitted.frame_length, Some(10));
    assert_eq!(emitted.output, packet);
    let passed = run(
        &mut Dispatcher::new(FailurePolicy::EmitNothing),
        &mut host,
        vec![0xF3, 0x00, 0x0A],
        &echo,
    );
    assert_eq!(passed.frame_length, Some(10));
    assert_eq!(passed.disposition, Disposition::PassedThrough);
}

#[test]
fn variable_size_header_is_big_endian() {
    let mut dispatcher = Dispatcher::new(FailurePolicy::EmitNothing);
    let mut host = Host::new(&[(0xF3, 0xFFFF)]);
    let emitted = run(&mut dispatcher, &mut host, vec![0xF3, 0x01, 0x02], &echo);
    assert_eq!(emitted.frame_length, Some(258));
}

#[test]
fn truncated_variable_packet_is_dropped_as_malformed() {
    let mut dispatcher = Dispatcher::new(FailurePolicy::ForwardOriginal);
    dispatcher.register(info(0xF3, "h")).unwrap();
    let mut host = Host::new(&[(0xF3, 0xFFFF)]);
    for packet in [vec![0xF3], vec![0xF3, 0x00]] {
        let emitted = run(&mut dispatcher, &mut host, packet, &echo);
        assert_eq!(
            emitted,
            Emitted { disposition: Disposition::Malformed, frame_length: None, output: vec![] }
        );
        assert_eq!(emitted.error(), Some(PluginError::MalformedPacket));
    }
    assert!(host.calls.is_empty());
}

#[test]
fn unresolved_size_emits_nothing_under_that_policy() {
    let mut dispatcher = Dispatcher::new(FailurePolicy::EmitNothing);
    dispatcher.register(info(0x42, "h")).unwrap();
    let mut host = Host::new(&[]);
    let emitted = run(&mut dispatcher, &mut host, vec![0x42, 1, 2], &echo);
    assert_eq!(
        emitted,
        Emitted { disposition: Disposition::Unresolved, frame_length: None, output: vec![] }
    );
    assert_eq!(emitted.error(), Some(PluginError::ResolutionFailure));
    assert!(host.calls.is_empty());
}

#[test]
fn unresolved_size_forwards_the_packet_under_that_policy() {
    let mut dispatcher = Dispatcher::new(FailurePolicy::ForwardOriginal);
    dispatcher.register(info(0x42, "h")).unwrap();
    let mut host = Host::new(&[]);
    let emitted = run(&mut dispatcher, &mut host, vec![0x42, 1, 2], &nothing);
    assert_eq!(
        emitted,
        Emitted { disposition: Disposition::Unresolved, frame_length: None, output: vec![0x42, 1, 2] }
    );
    assert_eq!(emitted.error(), Some(PluginError::ResolutionFailure));
    assert!(host.calls.is_empty());
}

#[test]
fn short_size_reply_is_unresolved() {
    let mut dispatcher = Dispatcher::new(FailurePolicy::EmitNothing);
    for reply in [Some(vec![]), Some(vec![5])] {
        match dispatcher.receive(vec![0x73, 1]) {
            ReceiveStep::Resolve { state, .. } => {
                let step = dispatcher.size_resolved(state, reply);
                assert_eq!(
                    step,
                    ResolveStep::Emit(Emitted {
                        disposition: Disposition::Unresolved,
                        frame_length: None,
                        output: vec![],
                    })
                );
            }
            ReceiveStep::Emit(_) => panic!("a packet with an identifier must be resolved"),
        }
    }
}

#[test]
fn the_next_packet_is_processed_after_a_failure() {
    let mut dispatcher = Dispatcher::new(FailurePolicy::EmitNothing);
    dispatcher.register(info(0x73, "h")).unwrap();
    let mut host = Host::new(&[(0x73, 5)]);
    let failed = run(&mut dispatcher, &mut host, vec![0x99, 1], &echo);
    assert_eq!(failed.disposition, Disposition::Unresolved);
    let malformed = run(&mut dispatcher, &mut host, vec![], &echo);
    assert_eq!(malformed.disposition, Disposition::Malformed);
    let fine = run(&mut dispatcher, &mut host, vec![0x73, 1, 2, 3, 4], &echo);
    assert_eq!(fine.disposition, Disposition::Handled);
    assert_eq!(fine.output, vec![0x73, 1, 2, 3, 4]);
}

#[test]
fn the_handler_registered_last_wins() {
    let mut dispatcher = Dispatcher::new(FailurePolicy::EmitNothing);
    dispatcher.register(info(0x73, "first")).unwrap();
    dispatcher.register(info(0x10, "between")).unwrap();
    dispatcher.register(info(0x73, "second")).unwrap();
    let mut host = Host::new(&[(0x73, 5)]);
    run(&mut dispatcher, &mut host, vec![0x73, 1, 2, 3, 4], &echo);
    assert_eq!(host.calls.len(), 1);
    assert_eq!(host.calls[0].handler, 2);
    assert_eq!(host.calls[0].name, "second");
    assert_eq!(dispatcher.registry().handlers_for(0x73), vec![0, 2]);
}

#[test]
fn registration_is_refused_once_a_packet_was_received() {
    let mut dispatcher = Dispatcher::new(FailurePolicy::EmitNothing);
    assert_eq!(dispatcher.register(info(0x73, "h")), Ok(()));
    assert!(!dispatcher.registry().is_sealed());
    let _ = dispatcher.receive(vec![]);
    assert!(dispatcher.registry().is_sealed());
    assert_eq!(dispatcher.register(info(0xF3, "late")), Err(PluginError::RegistrationClosed));
    assert_eq!(dispatcher.registry().len(), 1);
    assert_eq!(dispatcher.registry().get(0), Some(&info(0x73, "h")));
    assert_eq!(dispatcher.registry().select(0xF3), None);
}

#[test]
fn receiving_keeps_registrations_and_policy() {
    let mut dispatcher = Dispatcher::new(FailurePolicy::ForwardOriginal);
    dispatcher.register(info(0x73, "h")).unwrap();
    let _ = dispatcher.receive(vec![0x73]);
    assert_eq!(dispatcher.policy(), FailurePolicy::ForwardOriginal);
    assert_eq!(dispatcher.registry().len(), 1);
    assert_eq!(dispatcher.registry().select(0x73), Some(0));
}

#[test]
fn resolved_state_reports_the_frame_length() {
    let mut dispatcher = Dispatcher::new(FailurePolicy::EmitNothing);
    dispatcher.register(info(0x73, "h")).unwrap();
    match dispatcher.receive(vec![0x73, 1]) {
        ReceiveStep::Resolve { state, .. } => {
            match dispatcher.size_resolved(state, Some(vec![0x34, 0x12])) {
                ResolveStep::Invoke { state, call } => {
                    assert_eq!(state.frame_length(), 0x1234);
                    assert_eq!(call.frame_length, 0x1234);
                }
                ResolveStep::Emit(_) => panic!("a handler is registered"),
            }
        }
        ReceiveStep::Emit(_) => panic!("a packet with an identifier must be resolved"),
    }
}

#[test]
fn error_of_each_disposition() {
    let emitted = |disposition| Emitted { disposition, frame_length: None, output: vec![] };
    assert_eq!(emitted(Disposition::Handled).error(), None);
    assert_eq!(emitted(Disposition::Dropped).error(), None);
    assert_eq!(emitted(Disposition::PassedThrough).error(), None);
    assert_eq!(emitted(Disposition::Malformed).error(), Some(PluginError::MalformedPacket));
    assert_eq!(emitted(Disposition::Unresolved).error(), Some(PluginError::ResolutionFailure));
}

#[test]
fn entity_write_is_not_rolled_back_when_the_packet_is_dropped() {
    let mut dispatcher = Dispatcher::new(FailurePolicy::EmitNothing);
    dispatcher.register(info(0x73, "h")).unwrap();
    let mut host = Host::new(&[(0x73, 5)]);
    let store: std::cell::RefCell<Vec<(Vec<u8>, Graphic)>> = std::cell::RefCell::new(Vec::new());
    let emitted = run(&mut dispatcher, &mut host, vec![0x73, 1, 2, 3, 4], &|_| {
        let request = set_entity_graphic(42, Graphic { value: 0x12 });
        store.borrow_mut().push((request.key, request.value));
        Vec::new()
    });
    assert_eq!(emitted.disposition, Disposition::Dropped);
    let found = store.borrow().iter().find(|(key, _)| *key == serial_key(42)).map(|(_, g)| *g);
    assert_eq!(get_entity_graphic(found), Graphic { value: 0x12 });
}

#[test]
fn only_an_unresolved_size_is_signalled_as_failure() {
    let emitted = |disposition, output: Vec<u8>| Emitted { disposition, frame_length: None, output };
    assert_eq!(emitted(Disposition::Handled, vec![1, 2]).into_result(), Ok(vec![1, 2]));
    assert_eq!(emitted(Disposition::Dropped, vec![]).into_result(), Ok(vec![]));
    assert_eq!(emitted(Disposition::PassedThrough, vec![7]).into_result(), Ok(vec![7]));
    assert_eq!(emitted(Disposition::Malformed, vec![]).into_result(), Ok(vec![]));
    assert_eq!(
        emitted(Disposition::Unresolved, vec![]).into_result(),
        Err(PluginError::ResolutionFailure)
    );
    assert_eq!(
        emitted(Disposition::Unresolved, vec![0x42, 1]).into_result(),
        Err(PluginError::ResolutionFailure)
    );
}

#[test]
fn received_state_holds_the_packet() {
    let mut dispatcher = Dispatcher::new(FailurePolicy::EmitNothing);
    match dispatcher.receive(vec![0x73, 1, 2]) {
        ReceiveStep::Resolve { state, packet_id } => {
            assert_eq!(state.packet(), &vec![0x73, 1, 2]);
            assert_eq!(packet_id, state.packet()[0]);
        }
        ReceiveStep::Emit(_) => panic!("a packet with an identifier must be resolved"),
    }
}
