use mitch_cli::device_actor::{
    backoff_seconds, is_object_lost, named_devices, rediscover, ActorAction, ActorError, ActorEvent, DeviceActor,
    DeviceInfo, Notification, Phase,
};
use mitch_cli::mitch::{Commands, COMMAND_CHAR, DATA_CHAR, SERVICE};
use mitch_cli::protocol::{DeviceCommand, DeviceStatus};

type Actor = DeviceActor<u32, u32, u32, u32>;
type Event = ActorEvent<u32, u32, u32, u32, &'static str>;
type Action = ActorAction<u32, &'static str>;

fn device(id: &str, name: Option<&str>, handle: u32) -> DeviceInfo<u32> {
    DeviceInfo { id: id.to_string(), name: name.map(|n| n.to_string()), handle }
}

fn step(actor: Actor, event: Event) -> (Actor, Action) {
    assert!(actor.can_take(&event));
    actor.step(event)
}

fn play(actor: Actor, events: Vec<Event>) -> (Actor, Vec<Action>) {
    let mut actor = actor;
    let mut actions = Vec::new();
    for event in events {
        let (next, action) = step(actor, event);
        actor = next;
        actions.push(action);
    }
    (actor, actions)
}

fn idle() -> Actor {
    let actor: Actor = DeviceActor::new("mitch-1", device("hci0/dev_1", Some("mitch-1"), 1));
    let (actor, actions) = play(
        actor,
        vec![
            Event::Started,
            Event::Subscribed(Ok(())),
            Event::Done(Ok(())),
            Event::Done(Ok(())),
            Event::DataCharFound(Ok("char-data".to_string())),
        ],
    );
    assert_eq!(
        actions,
        vec![
            Action::Subscribe,
            Action::FindService { uuid: SERVICE },
            Action::FindCharacteristic { uuid: COMMAND_CHAR },
            Action::FindCharacteristic { uuid: DATA_CHAR },
            Action::Await,
        ]
    );
    assert_eq!(actor.phase, Phase::Idle);
    actor
}

fn recording() -> Actor {
    let (actor, actions) = play(
        idle(),
        vec![
            Event::Command(Some(DeviceCommand::StartRecording {
                lsl_stream_name: "mitch-1".to_string(),
            })),
            Event::OutletOpened(77),
            Event::Done(Ok(())),
            Event::Read(Ok(vec![1, 2])),
            Event::Done(Ok(())),
        ],
    );
    match &actions[0] {
        Action::OpenOutlet(stream) => {
            assert_eq!(stream.name, "mitch-1");
            assert_eq!(stream.stream_type, "Pressure");
            assert_eq!(stream.channel_count, 16);
            assert_eq!(stream.rate_hz, 50);
            assert_eq!(stream.source_id, "mitch-1");
            assert_eq!(stream.chunk_size, 1);
            assert_eq!(stream.max_buffered, 360);
        }
        other => panic!("{:?}", other),
    }
    assert_eq!(
        &actions[1..],
        &[
            Action::Write(Commands::StartPressureStream),
            Action::ReadCommandChar,
            Action::StartNotify,
            Action::Await,
        ]
    );
    actor
}

fn lost() -> Event {
    Event::Notified(Some(Notification::Connection {
        id: "hci0/dev_1".to_string(),
        connected: false,
    }))
}

fn value(id: &str, data: Vec<u8>) -> Event {
    Event::Notified(Some(Notification::Characteristic { id: id.to_string(), value: Some(data) }))
}

#[test]
fn recording_opens_an_outlet() {
    let actor = recording();
    assert_eq!(actor.outlet, Some(77));
    assert_eq!(actor.phase, Phase::Idle);
}

#[test]
fn recording_twice_replaces_the_outlet() {
    let (actor, _) = play(
        recording(),
        vec![
            Event::Command(Some(DeviceCommand::StartRecording { lsl_stream_name: String::new() })),
            Event::OutletOpened(78),
        ],
    );
    assert_eq!(actor.outlet, Some(78));
}

#[test]
fn data_is_pushed_while_recording() {
    let (actor, action) = step(recording(), value("char-data", vec![9, 9, 9, 9, 0, 127, 128, 255]));
    assert_eq!(action, Action::Push(vec![0, 127, 128, 255]));
    let (actor, action) = step(actor, value("char-data", vec![9, 9, 9, 9]));
    assert_eq!(action, Action::Push(vec![]));
    let (_, action) = step(actor, value("char-data", vec![9, 9, 9]));
    assert_eq!(action, Action::Await);
}

#[test]
fn data_is_not_pushed_without_outlet_or_from_elsewhere() {
    let (_, action) = step(idle(), value("char-data", vec![9, 9, 9, 9, 1]));
    assert_eq!(action, Action::Await);
    let (actor, action) = step(recording(), value("char-other", vec![9, 9, 9, 9, 1]));
    assert_eq!(action, Action::Await);
    let (actor, action) = step(
        actor,
        Event::Notified(Some(Notification::Characteristic {
            id: "char-data".to_string(),
            value: None,
        })),
    );
    assert_eq!(action, Action::Await);
    let (actor, action) = step(actor, Event::Notified(Some(Notification::Other)));
    assert_eq!(action, Action::Await);
    assert_eq!(actor, recording());
}

#[test]
fn status_is_replied() {
    let (actor, actions) = play(
        idle(),
        vec![
            Event::Command(Some(DeviceCommand::Status { tx: 5 })),
            Event::Done(Ok(())),
            Event::Read(Ok(vec![0, 3, 135, 0, 88])),
        ],
    );
    assert_eq!(
        actions,
        vec![
            Action::Write(Commands::GetPower),
            Action::ReadCommandChar,
            Action::Reply {
                tx: 5,
                status: DeviceStatus { name: "mitch-1".to_string(), battery_charge: Some(88) },
            },
        ]
    );
    assert_eq!(actor, idle());
}

#[test]
fn status_without_charge() {
    let (_, actions) = play(
        idle(),
        vec![
            Event::Command(Some(DeviceCommand::Status { tx: 5 })),
            Event::Done(Ok(())),
            Event::Read(Ok(vec![0, 2, 135, 1])),
        ],
    );
    assert_eq!(
        actions[2],
        Action::Reply {
            tx: 5,
            status: DeviceStatus { name: "mitch-1".to_string(), battery_charge: None },
        }
    );
}

#[test]
fn short_power_reply_cannot_be_taken() {
    let (actor, _) = play(
        idle(),
        vec![Event::Command(Some(DeviceCommand::Status { tx: 5 })), Event::Done(Ok(()))],
    );
    assert!(!actor.can_take(&Event::Read(Ok(vec![0, 2, 135]))));
    assert!(!actor.can_take(&Event::Read(Ok(vec![0, 2, 135, 0]))));
    assert!(actor.can_take(&Event::Read(Ok(vec![0, 2, 135, 1]))));
    assert!(actor.can_take(&Event::Read(Err("gone"))));
}

#[test]
fn shutdown_cleans_up() {
    for stop in [Event::Command(Some(DeviceCommand::Shutdown)), Event::Command(None), Event::Notified(None)] {
        let (actor, actions) = play(
            recording(),
            vec![stop, Event::Done(Err("x")), Event::Done(Err("y")), Event::Removed],
        );
        assert_eq!(
            actions,
            vec![Action::StopNotify, Action::Disconnect, Action::RemoveEntry, Action::Finish]
        );
        assert_eq!(actor.phase, Phase::Finished);
        let (actor, action) = step(actor, Event::Started);
        assert_eq!(action, Action::Ignore);
        assert_eq!(actor.phase, Phase::Finished);
    }
}

#[test]
fn reconnecting_resumes_the_stream() {
    let (actor, actions) = play(
        recording(),
        vec![
            lost(),
            Event::Done(Err("was gone")),
            Event::Connected(Ok(())),
            Event::Done(Ok(())),
            Event::Read(Err("no reply")),
            Event::Done(Err("no notify")),
            Event::Done(Err("no update")),
        ],
    );
    assert_eq!(
        actions,
        vec![
            Action::Disconnect,
            Action::Connect,
            Action::Write(Commands::StartPressureStream),
            Action::ReadCommandChar,
            Action::StartNotify,
            Action::UpdateConnection,
            Action::Await,
        ]
    );
    assert_eq!(actor, recording());
}

#[test]
fn reconnecting_without_recording() {
    let (actor, actions) = play(
        idle(),
        vec![lost(), Event::Done(Ok(())), Event::Connected(Ok(())), Event::Done(Ok(()))],
    );
    assert_eq!(
        actions,
        vec![Action::Disconnect, Action::Connect, Action::UpdateConnection, Action::Await]
    );
    assert_eq!(actor, idle());
}

#[test]
fn giving_up_after_five_attempts() {
    let mut events = vec![lost()];
    for attempt in 0..5 {
        events.push(Event::Done(Ok(())));
        events.push(Event::Connected(Err(None)));
        if attempt < 4 {
            events.push(Event::Slept);
        }
    }
    events.push(Event::Done(Ok(())));
    events.push(Event::Removed);
    let (actor, actions) = play(recording(), events);
    assert_eq!(
        actions,
        vec![
            Action::Disconnect,
            Action::Connect,
            Action::Sleep { seconds: 2 },
            Action::Disconnect,
            Action::Connect,
            Action::Sleep { seconds: 4 },
            Action::Disconnect,
            Action::Connect,
            Action::Sleep { seconds: 8 },
            Action::Disconnect,
            Action::Connect,
            Action::Sleep { seconds: 16 },
            Action::Disconnect,
            Action::Connect,
            Action::StopNotify,
            Action::RemoveEntry,
            Action::Finish,
        ]
    );
    assert!(!actor.connected);
}

#[test]
fn backoff_doubles() {
    assert_eq!(backoff_seconds(0), 2);
    assert_eq!(backoff_seconds(1), 4);
    assert_eq!(backoff_seconds(2), 8);
    assert_eq!(backoff_seconds(3), 16);
}

#[test]
fn lost_object_is_rediscovered() {
    let unknown = "org.freedesktop.DBus.Error.UnknownObject".to_string();
    let (actor, actions) = play(
        idle(),
        vec![
            lost(),
            Event::Done(Ok(())),
            Event::Connected(Err(Some(unknown))),
            Event::Slept,
            Event::Adapters(Ok(vec![40, 41])),
            Event::Done(Ok(())),
            Event::Slept,
            Event::Done(Ok(())),
            Event::Devices(Ok(vec![
                device("a", Some("mitch-1"), 2),
                device("b", Some("mitch-1"), 3),
                device("c", None, 4),
            ])),
            Event::Done(Ok(())),
            Event::Connected(Ok(())),
        ],
    );
    assert_eq!(
        actions,
        vec![
            Action::Disconnect,
            Action::Connect,
            Action::Sleep { seconds: 2 },
            Action::ListAdapters,
            Action::StartDiscovery,
            Action::Sleep { seconds: 5 },
            Action::StopDiscovery,
            Action::ListDevices,
            Action::Disconnect,
            Action::Connect,
            Action::UpdateConnection,
        ]
    );
    assert_eq!(actor.device, device("b", Some("mitch-1"), 3));
    assert_eq!(actor.adapter, Some(40));
}

#[test]
fn discovery_needs_an_adapter() {
    let (actor, _) = play(
        idle(),
        vec![
            lost(),
            Event::Done(Ok(())),
            Event::Connected(Err(Some("UnknownObject".to_string()))),
            Event::Slept,
        ],
    );
    assert!(!actor.can_take(&Event::Adapters(Ok(vec![]))));
    let (actor, action) = step(actor, Event::Adapters(Err("no adapters")));
    assert_eq!(action, Action::Fail(ActorError::Operation("no adapters")));
    assert_eq!(actor.phase, Phase::Failed);
}

#[test]
fn object_lost_is_read_from_the_name() {
    assert!(is_object_lost(&Some("org.freedesktop.DBus.Error.UnknownObject".to_string())));
    assert!(is_object_lost(&Some("UnknownObject".to_string())));
    assert!(!is_object_lost(&Some("org.bluez.Error.Failed".to_string())));
    assert!(!is_object_lost(&Some("UnknownObjec".to_string())));
    assert!(!is_object_lost(&None));
}

#[test]
fn rediscovery_keeps_the_device_where_none_has_the_name() {
    let current = device("a", Some("m"), 1);
    let found = rediscover(current, vec![device("b", Some("n"), 2), device("c", None, 3)], &"m".to_string());
    assert_eq!(found, device("a", Some("m"), 1));
    let found = rediscover(found, vec![], &"m".to_string());
    assert_eq!(found.handle, 1);
}

#[test]
fn other_devices_are_ignored() {
    let (actor, action) = step(
        idle(),
        Event::Notified(Some(Notification::Connection {
            id: "hci0/dev_2".to_string(),
            connected: false,
        })),
    );
    assert_eq!(action, Action::Await);
    let (actor, action) = step(
        actor,
        Event::Notified(Some(Notification::Connection {
            id: "hci0/dev_1".to_string(),
            connected: true,
        })),
    );
    assert_eq!(action, Action::Await);
    assert_eq!(actor, idle());
}

#[test]
fn no_notifications_is_a_failure_with_a_text() {
    let actor: Actor = DeviceActor::new("mitch-1", device("a", None, 1));
    let (actor, actions) =
        play(actor, vec![Event::Started, Event::Subscribed(Err("bus closed".to_string()))]);
    assert_eq!(
        actions[1],
        Action::Fail(ActorError::Notifications(
            "Actor for mitch-1: Failed to get notifications: bus closed".to_string()
        ))
    );
    assert_eq!(actor.phase, Phase::Failed);
}

#[test]
fn setup_failures_are_passed_on() {
    for failing in 0..3 {
        let actor: Actor = DeviceActor::new("m", device("a", None, 1));
        let mut events = vec![Event::Started, Event::Subscribed(Ok(()))];
        for _ in 0..failing {
            events.push(Event::Done(Ok(())));
        }
        events.push(if failing == 2 { Event::DataCharFound(Err("e")) } else { Event::Done(Err("e")) });
        let (_, actions) = play(actor, events);
        assert_eq!(actions[actions.len() - 1], Action::Fail(ActorError::Operation("e")));
    }
}

#[test]
fn recording_failures_are_passed_on() {
    let start = || Event::Command(Some(DeviceCommand::StartRecording { lsl_stream_name: String::new() }));
    for events in [
        vec![start(), Event::OutletOpened(1), Event::Done(Err("e"))],
        vec![start(), Event::OutletOpened(1), Event::Done(Ok(())), Event::Read(Err("e"))],
        vec![
            start(),
            Event::OutletOpened(1),
            Event::Done(Ok(())),
            Event::Read(Ok(vec![])),
            Event::Done(Err("e")),
        ],
    ] {
        let (actor, actions) = play(idle(), events);
        assert_eq!(actions[actions.len() - 1], Action::Fail(ActorError::Operation("e")));
        assert_eq!(actor.phase, Phase::Failed);
    }
}

#[test]
fn unexpected_events_are_ignored() {
    let (actor, action) = step(idle(), Event::Slept);
    assert_eq!(action, Action::Ignore);
    assert_eq!(actor, idle());
}

#[test]
fn nameless_devices_are_left_out() {
    let (names, devices) = named_devices(vec![
        device("a", Some("m"), 1),
        device("b", None, 2),
        device("c", Some("n"), 3),
    ]);
    assert_eq!(names, vec!["m".to_string(), "n".to_string()]);
    assert_eq!(devices, vec![device("a", Some("m"), 1), device("c", Some("n"), 3)]);
}

#[test]
fn samples_come_out_in_order() {
    let (_, actions) = play(
        recording(),
        vec![
            value("char-data", vec![0, 0, 0, 0, 1]),
            value("char-other", vec![0, 0, 0, 0, 2]),
            value("char-data", vec![0, 0, 0, 0, 3]),
            value("char-data", vec![0, 0, 0, 0, 3]),
        ],
    );
    assert_eq!(
        actions,
        vec![
            Action::Push(vec![1]),
            Action::Await,
            Action::Push(vec![3]),
            Action::Push(vec![3]),
        ]
    );
}

#[test]
fn reconnecting_sleeps_fifty_seconds_at_most() {
    let mut events = vec![lost()];
    for attempt in 0..5 {
        events.push(Event::Done(Ok(())));
        events.push(Event::Connected(Err(Some("UnknownObject".to_string()))));
        if attempt < 4 {
            events.push(Event::Slept);
            events.push(Event::Adapters(Ok(vec![1])));
            events.push(Event::Done(Ok(())));
            events.push(Event::Slept);
            events.push(Event::Done(Ok(())));
            events.push(Event::Devices(Ok(vec![])));
        }
    }
    let (actor, actions) = play(idle(), events);
    let slept: u64 = actions
        .iter()
        .map(|action| match action {
            Action::Sleep { seconds } => *seconds,
            _ => 0,
        })
        .sum();
    assert_eq!(slept, 50);
    let rediscoveries = actions.iter().filter(|a| matches!(a, Action::ListAdapters)).count();
    assert_eq!(rediscoveries, 4);
    assert_eq!(actor.phase, Phase::StoppingNotify);
}
