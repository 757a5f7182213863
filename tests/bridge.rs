use pulse_bridge::adapter::{
    handshake_step, streams_on, take_device, take_result, wait_step, AdapterError, ContextState,
    IterateOutcome, MiscReason, OperationState, Poll, StreamRecord,
};
use pulse_bridge::protocol::{Event, LinkFault, LinkState, Message};
use pulse_bridge::types::{copy_opt_string, copy_volumes, DeviceInfo, DeviceKind, DeviceRecord, ServerInfo};
use pulse_bridge::worker::{Command, Reply, Step, Worker};

fn device(name: Option<&str>, index: u32) -> DeviceInfo {
    DeviceInfo {
        name: name.map(|n| n.to_string()),
        description: None,
        volume: vec![65536, 65536],
        mute: false,
        index,
    }
}

fn server(default_sink: Option<&str>, default_source: Option<&str>) -> ServerInfo {
    ServerInfo {
        user_name: None,
        host_name: None,
        server_version: None,
        server_name: None,
        default_sink_name: default_sink.map(|n| n.to_string()),
        default_source_name: default_source.map(|n| n.to_string()),
        cookie: 7,
    }
}

/// Submits a request, then answers each command with the next reply, and
/// collects the commands and events in order.
fn drive(w: &mut Worker, req: Message, replies: Vec<Reply>) -> (Vec<Command>, Vec<Message>) {
    let mut commands = Vec::new();
    let mut events = Vec::new();
    let mut step: Step = w.submit(req);
    let mut replies = replies.into_iter();
    loop {
        if let Some(e) = step.event {
            events.push(e);
        }
        match step.command {
            Some(c) => {
                commands.push(c);
                let r = replies.next().expect("a reply for each command");
                step = w.resume(r);
            }
            None => break,
        }
    }
    assert!(w.ready());
    (commands, events)
}

fn connected_worker() -> Worker {
    let mut w = Worker::new();
    let (_, events) = drive(&mut w, Message::UpdateConnection, vec![Reply::Connection(Ok(()))]);
    assert_eq!(events, vec![Message::Connected]);
    w
}

#[test]
fn record_conversion_keeps_every_field() {
    let rec = DeviceRecord {
        name: Some("alsa_output.usb".to_string()),
        description: Some("USB Audio".to_string()),
        channels: 2,
        values: vec![100, 200, 300, 400],
        mute: true,
        index: 42,
    };
    let d = DeviceInfo::from_record(&rec);
    assert_eq!(d.name, Some("alsa_output.usb".to_string()));
    assert_eq!(d.description, Some("USB Audio".to_string()));
    assert_eq!(d.volume, vec![100, 200]);
    assert!(d.mute);
    assert_eq!(d.index, 42);
}

#[test]
fn record_conversion_without_names_or_channels() {
    let rec = DeviceRecord {
        name: None,
        description: None,
        channels: 0,
        values: vec![5],
        mute: false,
        index: 0,
    };
    let d = DeviceInfo::from_record(&rec);
    assert_eq!(d.name, None);
    assert_eq!(d.description, None);
    assert!(d.volume.is_empty());
    assert!(!d.mute);
    assert_eq!(d.index, 0);
}

#[test]
fn copies_are_equal() {
    assert_eq!(copy_opt_string(&Some("x".to_string())), Some("x".to_string()));
    assert_eq!(copy_opt_string(&None), None);
    assert_eq!(copy_volumes(&[1, 2, 3], 2), vec![1, 2]);
}

#[test]
fn wait_step_decisions() {
    assert_eq!(wait_step(IterateOutcome::Success(1), OperationState::Done), Poll::Complete);
    assert_eq!(wait_step(IterateOutcome::Success(0), OperationState::Running), Poll::Continue);
    assert_eq!(
        wait_step(IterateOutcome::Success(0), OperationState::Cancelled),
        Poll::Abort(AdapterError::OperationError(OperationState::Cancelled))
    );
    assert_eq!(
        wait_step(IterateOutcome::Failure(-3), OperationState::Done),
        Poll::Abort(AdapterError::IterateError(IterateOutcome::Failure(-3)))
    );
    assert_eq!(
        wait_step(IterateOutcome::Quit(0), OperationState::Running),
        Poll::Abort(AdapterError::IterateError(IterateOutcome::Quit(0)))
    );
}

#[test]
fn handshake_step_decisions() {
    assert_eq!(handshake_step(IterateOutcome::Success(0), ContextState::Ready), Poll::Complete);
    assert_eq!(handshake_step(IterateOutcome::Success(0), ContextState::Authorizing), Poll::Continue);
    assert_eq!(
        handshake_step(IterateOutcome::Success(0), ContextState::Failed),
        Poll::Abort(AdapterError::ContextError(ContextState::Failed))
    );
    assert_eq!(
        handshake_step(IterateOutcome::Success(0), ContextState::Terminated),
        Poll::Abort(AdapterError::ContextError(ContextState::Terminated))
    );
    assert_eq!(
        handshake_step(IterateOutcome::Failure(-1), ContextState::Ready),
        Poll::Abort(AdapterError::IterateError(IterateOutcome::Failure(-1)))
    );
}

#[test]
fn result_slot_extraction() {
    assert_eq!(take_result(Ok(()), Some(5u32)), Ok(5));
    assert_eq!(
        take_result::<u32>(Ok(()), None),
        Err(AdapterError::Misc(MiscReason::MissingResult))
    );
    let e = AdapterError::OperationError(OperationState::Cancelled);
    assert_eq!(take_result(Err(e), Some(5u32)), Err(e));
    assert_eq!(take_device(Ok(()), Some(1u32)), Ok(1));
    assert_eq!(
        take_device::<u32>(Ok(()), None),
        Err(AdapterError::Misc(MiscReason::DeviceNotFound))
    );
    assert_eq!(take_device(Err(AdapterError::ConnectError(-2)), Some(1u32)), Err(AdapterError::ConnectError(-2)));
}

#[test]
fn streams_on_keeps_attached_in_order() {
    let streams = vec![
        StreamRecord { index: 10, device: 5 },
        StreamRecord { index: 11, device: 6 },
        StreamRecord { index: 12, device: 5 },
    ];
    assert_eq!(streams_on(&streams, 5), vec![10, 12]);
    assert_eq!(streams_on(&streams, 6), vec![11]);
    assert!(streams_on(&streams, 7).is_empty());
    assert!(streams_on(&Vec::new(), 5).is_empty());
}

#[test]
fn link_handshake_and_relay() {
    let mut s = LinkState::new();
    assert_eq!(s, LinkState::Init);
    match s.open(3u8) {
        Event::Init(h) => assert_eq!(h, 3),
        _ => panic!("expected the handshake event"),
    }
    assert_eq!(s, LinkState::Connecting);
    assert!(matches!(s.relay::<u8>(Some(Message::Disconnected)), Ok(Some(Event::Disconnected))));
    assert_eq!(s, LinkState::Connecting);
    assert!(matches!(s.relay::<u8>(Some(Message::Connected)), Ok(Some(Event::Connected))));
    assert_eq!(s, LinkState::Connected);
    match s.relay::<u8>(Some(Message::SetSinks(vec![device(Some("a"), 1)]))) {
        Ok(Some(Event::MessageReceived(Message::SetSinks(l)))) => assert_eq!(l.len(), 1),
        _ => panic!("expected the sinks to be relayed"),
    }
    assert!(matches!(s.relay::<u8>(Some(Message::GetSinks)), Ok(None)));
    assert_eq!(s, LinkState::Connected);
    assert!(matches!(s.relay::<u8>(None), Ok(Some(Event::Disconnected))));
    assert_eq!(s, LinkState::Connecting);
}

#[test]
fn link_faults_while_connecting() {
    let mut s = LinkState::new();
    let _ = s.open(0u8);
    assert!(matches!(
        s.relay::<u8>(Some(Message::GetSinks)),
        Err(LinkFault::Unexpected(Message::GetSinks))
    ));
    assert!(matches!(s.relay::<u8>(None), Err(LinkFault::Closed)));
}

#[test]
fn failed_connect_is_silent() {
    let mut w = Worker::new();
    let (commands, events) = drive(
        &mut w,
        Message::UpdateConnection,
        vec![Reply::Connection(Err(AdapterError::ConnectError(-1)))],
    );
    assert!(matches!(commands[..], [Command::Connect]));
    assert!(events.is_empty());
    assert!(!w.connected);
}

#[test]
fn reads_while_connected_answer_in_order() {
    let mut w = connected_worker();
    let (_, e1) = drive(&mut w, Message::GetSources, vec![Reply::Devices(Ok(vec![device(Some("mic"), 2)]))]);
    let (_, e2) = drive(&mut w, Message::GetSinks, vec![Reply::Devices(Ok(vec![]))]);
    let (_, e3) = drive(
        &mut w,
        Message::GetDefaultSource,
        vec![Reply::Server(Ok(server(None, Some("mic")))), Reply::Device(Ok(device(Some("mic"), 2)))],
    );
    assert_eq!(e1, vec![Message::SetSources(vec![device(Some("mic"), 2)])]);
    assert_eq!(e2, vec![Message::SetSinks(vec![])]);
    assert_eq!(e3, vec![Message::SetDefaultSource(device(Some("mic"), 2))]);
    assert!(w.connected);
}

#[test]
fn requests_dropped_while_disconnected() {
    let requests = vec![
        Message::GetSinks,
        Message::GetSources,
        Message::GetDefaultSink,
        Message::GetDefaultSource,
        Message::SetSinkVolumeByName("a".to_string(), vec![1]),
        Message::SetSourceVolumeByName("b".to_string(), vec![2]),
        Message::SetDefaultSink(device(Some("a"), 1)),
        Message::SetDefaultSource(device(Some("b"), 2)),
    ];
    for r in requests {
        let mut w = Worker::new();
        let (commands, events) = drive(&mut w, r, vec![]);
        assert!(commands.is_empty());
        assert!(events.is_empty());
        assert!(!w.connected);
    }
}

#[test]
fn successful_probe_keeps_connection() {
    let mut w = connected_worker();
    let (commands, events) = drive(&mut w, Message::UpdateConnection, vec![Reply::Server(Ok(server(None, None)))]);
    assert!(matches!(commands[..], [Command::ServerInfo]));
    assert!(events.is_empty());
    assert!(w.connected);
}

#[test]
fn failed_probe_disconnects_once() {
    let mut w = connected_worker();
    let (_, events) = drive(
        &mut w,
        Message::UpdateConnection,
        vec![Reply::Server(Err(AdapterError::IterateError(IterateOutcome::Quit(1))))],
    );
    assert_eq!(events, vec![Message::Disconnected]);
    assert!(!w.connected);
    let (commands, events) = drive(&mut w, Message::GetSinks, vec![]);
    assert!(commands.is_empty());
    assert!(events.is_empty());
    let (commands, events) = drive(&mut w, Message::UpdateConnection, vec![Reply::Connection(Ok(()))]);
    assert!(matches!(commands[..], [Command::Connect]));
    assert_eq!(events, vec![Message::Connected]);
    let (_, events) = drive(&mut w, Message::GetSinks, vec![Reply::Devices(Ok(vec![]))]);
    assert_eq!(events, vec![Message::SetSinks(vec![])]);
}

#[test]
fn failed_read_disconnects() {
    let mut w = connected_worker();
    let (_, events) = drive(
        &mut w,
        Message::GetSources,
        vec![Reply::Devices(Err(AdapterError::OperationError(OperationState::Cancelled)))],
    );
    assert_eq!(events, vec![Message::Disconnected]);
    assert!(!w.connected);
}

#[test]
fn default_without_a_name_disconnects() {
    let mut w = connected_worker();
    let (commands, events) = drive(&mut w, Message::GetDefaultSink, vec![Reply::Server(Ok(server(None, None)))]);
    assert_eq!(commands.len(), 1);
    assert_eq!(events, vec![Message::Disconnected]);
}

#[test]
fn volume_change_emits_nothing() {
    let mut w = connected_worker();
    let (commands, events) = drive(
        &mut w,
        Message::SetSinkVolumeByName("out".to_string(), vec![10, 20]),
        vec![Reply::Flag(false)],
    );
    match &commands[..] {
        [Command::SetVolume(DeviceKind::Sink, n, v)] => {
            assert_eq!(n, "out");
            assert_eq!(v, &vec![10, 20]);
        }
        _ => panic!("expected one volume command"),
    }
    assert!(events.is_empty());
    assert!(w.connected);
}

#[test]
fn nameless_default_switch_is_dropped() {
    let mut w = connected_worker();
    let (commands, events) = drive(&mut w, Message::SetDefaultSink(device(None, 3)), vec![]);
    assert!(commands.is_empty());
    assert!(events.is_empty());
    let (commands, events) = drive(&mut w, Message::SetDefaultSource(device(None, 3)), vec![]);
    assert!(commands.is_empty());
    assert!(events.is_empty());
    assert!(w.connected);
}

#[test]
fn switch_reported_when_moves_fail() {
    let mut w = connected_worker();
    let target = device(Some("hdmi"), 9);
    let (commands, events) = drive(
        &mut w,
        Message::SetDefaultSource(target.clone()),
        vec![
            Reply::Server(Ok(server(None, Some("mic")))),
            Reply::Device(Ok(device(Some("mic"), 4))),
            Reply::Streams(vec![StreamRecord { index: 1, device: 4 }, StreamRecord { index: 2, device: 4 }]),
            Reply::Flag(true),
            Reply::Flag(false),
            Reply::Flag(false),
        ],
    );
    assert_eq!(commands.len(), 6);
    assert!(matches!(commands[4], Command::MoveStream(DeviceKind::Source, 1, _)));
    assert!(matches!(commands[5], Command::MoveStream(DeviceKind::Source, 2, _)));
    assert_eq!(events, vec![Message::SetDefaultSource(target)]);
}

#[test]
fn switch_refused_by_service_emits_nothing() {
    let mut w = connected_worker();
    let (commands, events) = drive(
        &mut w,
        Message::SetDefaultSink(device(Some("usb-dac"), 9)),
        vec![
            Reply::Server(Ok(server(Some("analog-out"), None))),
            Reply::Device(Ok(device(Some("analog-out"), 5))),
            Reply::Streams(vec![StreamRecord { index: 1, device: 5 }]),
            Reply::Flag(false),
        ],
    );
    assert_eq!(commands.len(), 4);
    assert!(events.is_empty());
    assert!(w.connected);
}

#[test]
fn scenario_connect_then_two_sink_lists() {
    let mut w = Worker::new();
    let mut events = Vec::new();
    let (_, e) = drive(&mut w, Message::UpdateConnection, vec![Reply::Connection(Ok(()))]);
    events.extend(e);
    let two = vec![device(Some("a"), 1), device(Some("b"), 2)];
    let three = vec![device(Some("a"), 1), device(Some("b"), 2), device(Some("c"), 3)];
    let (_, e) = drive(&mut w, Message::GetSinks, vec![Reply::Devices(Ok(two.clone()))]);
    events.extend(e);
    let (_, e) = drive(&mut w, Message::GetSinks, vec![Reply::Devices(Ok(three.clone()))]);
    events.extend(e);
    assert_eq!(events, vec![Message::Connected, Message::SetSinks(two), Message::SetSinks(three)]);
    match (&events[1], &events[2]) {
        (Message::SetSinks(a), Message::SetSinks(b)) => {
            assert_eq!(a.len(), 2);
            assert_eq!(b.len(), 3);
        }
        _ => panic!("expected two sink lists"),
    }
}

#[test]
fn scenario_default_sink_by_name() {
    let mut w = connected_worker();
    let (commands, events) = drive(
        &mut w,
        Message::GetDefaultSink,
        vec![Reply::Server(Ok(server(Some("analog-out"), None))), Reply::Device(Ok(device(Some("analog-out"), 5)))],
    );
    match &commands[1] {
        Command::LookupDevice(DeviceKind::Sink, n) => assert_eq!(n, "analog-out"),
        _ => panic!("expected a lookup of the default sink"),
    }
    match &events[..] {
        [Message::SetDefaultSink(d)] => {
            assert_eq!(d.index, 5);
            assert_eq!(d.name, Some("analog-out".to_string()));
        }
        _ => panic!("expected the default sink"),
    }
}

#[test]
fn scenario_switch_with_two_streams() {
    let mut w = connected_worker();
    let target = device(Some("usb-dac"), 9);
    let (commands, events) = drive(
        &mut w,
        Message::SetDefaultSink(target.clone()),
        vec![
            Reply::Server(Ok(server(Some("analog-out"), None))),
            Reply::Device(Ok(device(Some("analog-out"), 5))),
            Reply::Streams(vec![
                StreamRecord { index: 21, device: 5 },
                StreamRecord { index: 22, device: 8 },
                StreamRecord { index: 23, device: 5 },
            ]),
            Reply::Flag(true),
            Reply::Flag(true),
            Reply::Flag(false),
        ],
    );
    match &commands[3] {
        Command::AssignDefault(DeviceKind::Sink, n) => assert_eq!(n, "usb-dac"),
        _ => panic!("expected the default assignment"),
    }
    let moves: Vec<(u32, String)> = commands[4..]
        .iter()
        .map(|c| match c {
            Command::MoveStream(DeviceKind::Sink, i, n) => (*i, n.clone()),
            _ => panic!("expected stream moves"),
        })
        .collect();
    assert_eq!(moves, vec![(21, "usb-dac".to_string()), (23, "usb-dac".to_string())]);
    assert_eq!(events, vec![Message::SetDefaultSink(target)]);
}
