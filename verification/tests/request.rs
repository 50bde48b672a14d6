use mitch_cli::connection::{handle_client, ConnectionAction, ConnectionEvent, ConnectionPhase};
use mitch_cli::device_map::DeviceMap;
use mitch_cli::protocol::{ClientCommand, DaemonResponse, DeviceStatus};
use mitch_cli::request::{
    advance, begin, error_text, find_name, RequestAction, RequestError, RequestEvent, RequestState,
};
use mitch_cli::status::{ask_actors, StatusAction, StatusEvent, StatusPhase};

type Act<'a> = RequestAction<'a, u32, &'static str>;
type Event = RequestEvent<u32, &'static str>;
type Happened = ConnectionEvent<u32, &'static str>;

fn s(text: &str) -> String {
    text.to_string()
}

fn refused() -> DaemonResponse {
    DaemonResponse::Error(s("Device not connected"))
}

fn connect(map: &mut DeviceMap<u32>, name: &str, sender: u32) {
    let (state, _): (RequestState, Act) = begin(ClientCommand::Connect { name: s(name) }, map);
    let (state, _): (RequestState, Act) = advance(state, Event::Listed(Ok(vec![s(name)])), map);
    let (state, _): (RequestState, Act) = advance(state, Event::Connected(Ok(())), map);
    let (state, action): (RequestState, Act) = advance(state, Event::Spawned(sender), map);
    assert_eq!(state, RequestState::Over);
    assert_eq!(action, Act::Answer(DaemonResponse::Success));
}

#[test]
fn map_entries_come_and_go() {
    let mut map: DeviceMap<u32> = DeviceMap::new();
    assert!(map.is_empty());
    assert_eq!(map.insert(s("a"), 1), None);
    assert_eq!(map.insert(s("b"), 2), None);
    assert_eq!(map.insert(s("a"), 3), Some(1));
    assert_eq!(map.len(), 2);
    assert_eq!(map.get(&s("a")), Some(&3));
    assert_eq!(map.get(&s("c")), None);
    let mut visited = vec![*map.visit(0), *map.visit(1)];
    visited.sort();
    assert_eq!(visited, vec![2, 3]);
    assert_eq!(map.remove(&s("a")), Some(3));
    assert_eq!(map.remove(&s("a")), None);
    assert_eq!(map.remove(&s("b")), Some(2));
    assert!(map.is_empty());
}

#[test]
fn connecting_goes_through_all_steps() {
    let mut map: DeviceMap<u32> = DeviceMap::new();
    {
        let (state, action): (RequestState, Act) =
            begin(ClientCommand::Connect { name: s("B") }, &mut map);
        assert_eq!(state, RequestState::Listing { name: s("B") });
        assert_eq!(action, Act::List);
    }
    let (state, action): (RequestState, Act) = advance(
        RequestState::Listing { name: s("B") },
        Event::Listed(Ok(vec![s("A"), s("B"), s("B")])),
        &mut map,
    );
    assert_eq!(action, Act::Connect { index: 1 });
    let (state, action): (RequestState, Act) = advance(state, Event::Connected(Ok(())), &mut map);
    assert_eq!(action, Act::Spawn { index: 1, queue: 32 });
    assert!(map.is_empty());
    let (_, action): (RequestState, Act) = advance(state, Event::Spawned(4), &mut map);
    assert_eq!(action, Act::Answer(DaemonResponse::Success));
    assert_eq!(map.get(&s("B")), Some(&4));
}

#[test]
fn connecting_an_unknown_device_fails() {
    let mut map: DeviceMap<u32> = DeviceMap::new();
    let (state, action): (RequestState, Act) = advance(
        RequestState::Listing { name: s("C") },
        Event::Listed(Ok(vec![s("A"), s("B")])),
        &mut map,
    );
    assert_eq!(state, RequestState::Over);
    assert_eq!(action, Act::Fail(RequestError::DeviceNotFound));
}

#[test]
fn operation_failures_end_a_request() {
    let mut map: DeviceMap<u32> = DeviceMap::new();
    for (state, event) in [
        (RequestState::Listing { name: s("A") }, Event::Listed(Err("e"))),
        (RequestState::Connecting { name: s("A"), index: 0 }, Event::Connected(Err("e"))),
        (RequestState::Recording, Event::Sent(Err("e"))),
        (RequestState::Scanning, Event::Scanned(Err("e"))),
    ] {
        let (state, action): (RequestState, Act) = advance(state, event, &mut map);
        assert_eq!(state, RequestState::Over);
        assert_eq!(action, Act::Fail(RequestError::Operation("e")));
    }
    assert!(map.is_empty());
}

#[test]
fn unknown_devices_are_refused() {
    let mut map: DeviceMap<u32> = DeviceMap::new();
    connect(&mut map, "A", 1);
    for command in [
        ClientCommand::Record { name: s("B") },
        ClientCommand::Disconnect { name: s("B") },
    ] {
        let (state, action): (RequestState, Act) = begin(command, &mut map);
        assert_eq!(state, RequestState::Over);
        assert_eq!(action, Act::Answer(refused()));
    }
    assert_eq!(map.get(&s("A")), Some(&1));
}

#[test]
fn connected_until_disconnected() {
    let mut map: DeviceMap<u32> = DeviceMap::new();
    connect(&mut map, "A", 1);
    connect(&mut map, "B", 2);
    {
        let (state, action): (RequestState, Act) =
            begin(ClientCommand::Record { name: s("A") }, &mut map);
        assert_eq!(state, RequestState::Recording);
        assert_eq!(action, Act::Record { actor: &1, lsl_stream_name: s("A") });
    }
    let (_, action): (RequestState, Act) =
        advance(RequestState::Recording, Event::Sent(Ok(())), &mut map);
    assert_eq!(action, Act::Answer(DaemonResponse::Success));
    {
        let (state, action): (RequestState, Act) =
            begin(ClientCommand::Disconnect { name: s("A") }, &mut map);
        assert_eq!(state, RequestState::Dismissing);
        assert_eq!(action, Act::Dismiss { removed: 1 });
    }
    let (_, action): (RequestState, Act) =
        advance(RequestState::Dismissing, Event::Sent(Err("dead")), &mut map);
    assert_eq!(action, Act::Answer(DaemonResponse::Success));
    {
        let (_, action): (RequestState, Act) =
            begin(ClientCommand::Record { name: s("A") }, &mut map);
        assert_eq!(action, Act::Answer(refused()));
    }
    assert_eq!(map.get(&s("B")), Some(&2));
}

#[test]
fn reconnecting_replaces_the_actor() {
    let mut map: DeviceMap<u32> = DeviceMap::new();
    connect(&mut map, "A", 1);
    connect(&mut map, "A", 5);
    assert_eq!(map.len(), 1);
    assert_eq!(map.get(&s("A")), Some(&5));
}

#[test]
fn scan_is_answered_with_names() {
    let mut map: DeviceMap<u32> = DeviceMap::new();
    {
        let (state, action): (RequestState, Act) =
            begin(ClientCommand::Scan { timeout_ms: 2000 }, &mut map);
        assert_eq!(state, RequestState::Scanning);
        assert_eq!(action, Act::Scan { timeout_ms: 2000 });
    }
    let (_, action): (RequestState, Act) =
        advance(RequestState::Scanning, Event::Scanned(Ok(vec![s("A"), s("B")])), &mut map);
    assert_eq!(action, Act::Answer(DaemonResponse::Devices(vec![s("A"), s("B")])));
}

#[test]
fn scanned_names_can_be_connected() {
    let mut map: DeviceMap<u32> = DeviceMap::new();
    let seen = || vec![s("A"), s("B")];
    let (_, action): (RequestState, Act) =
        advance(RequestState::Scanning, Event::Scanned(Ok(seen())), &mut map);
    let mut told = match action {
        RequestAction::Answer(DaemonResponse::Devices(names)) => names,
        other => panic!("{:?}", other),
    };
    let name = told.remove(1);
    let (_, action): (RequestState, Act) =
        advance(RequestState::Listing { name }, Event::Listed(Ok(seen())), &mut map);
    assert_eq!(action, Act::Connect { index: 1 });
}

#[test]
fn status_is_answered_with_what_the_actors_said() {
    let mut map: DeviceMap<u32> = DeviceMap::new();
    {
        let (state, action): (RequestState, Act) = begin(ClientCommand::Status, &mut map);
        assert_eq!(state, RequestState::AskingStatus);
        assert_eq!(action, Act::AskStatus);
    }
    let told = || vec![DeviceStatus { name: s("A"), battery_charge: Some(3) }];
    let (_, action): (RequestState, Act) =
        advance(RequestState::AskingStatus, Event::Statuses(told()), &mut map);
    assert_eq!(action, Act::Answer(DaemonResponse::Statuses(told())));
}

#[test]
fn unexpected_request_events_are_ignored() {
    let mut map: DeviceMap<u32> = DeviceMap::new();
    let (state, action): (RequestState, Act) =
        advance(RequestState::Recording, Event::Spawned(1), &mut map);
    assert_eq!(state, RequestState::Recording);
    assert_eq!(action, Act::Ignore);
    assert!(map.is_empty());
}

#[test]
fn names_are_found_where_they_stand_first() {
    assert_eq!(find_name(&vec![s("a"), s("b"), s("b")], &s("b")), Some(1));
    assert_eq!(find_name(&vec![s("a")], &s("b")), None);
}

#[test]
fn a_refused_request_is_written_to_the_client() {
    let mut map: DeviceMap<u32> = DeviceMap::new();
    let (phase, action) = handle_client(ConnectionPhase::Created, Happened::Started, &mut map);
    assert_eq!(action, ConnectionAction::Read);
    assert_eq!(phase, ConnectionPhase::Reading);
    let (_, action) =
        handle_client(ConnectionPhase::Reading, Happened::Received(Ok(vec![1, 2])), &mut map);
    assert_eq!(action, ConnectionAction::Decode(vec![1, 2]));
    let (phase, action) = handle_client(
        ConnectionPhase::Decoding,
        Happened::Decoded(Ok(ClientCommand::Record { name: s("A") })),
        &mut map,
    );
    assert_eq!(phase, ConnectionPhase::Encoding);
    assert_eq!(action, ConnectionAction::Encode(refused()));
    let (phase, action) =
        handle_client(ConnectionPhase::Encoding, Happened::Encoded(Ok(vec![8, 9])), &mut map);
    assert_eq!(phase, ConnectionPhase::Writing);
    assert_eq!(action, ConnectionAction::Write(vec![8, 9]));
    let (phase, action) =
        handle_client(ConnectionPhase::Writing, Happened::Written(Ok(())), &mut map);
    assert_eq!(phase, ConnectionPhase::Over);
    assert_eq!(action, ConnectionAction::Close);
}

#[test]
fn a_connection_serves_its_request() {
    let mut map: DeviceMap<u32> = DeviceMap::new();
    let state = {
        let (phase, action) = handle_client(
            ConnectionPhase::Decoding,
            Happened::Decoded(Ok(ClientCommand::Connect { name: s("A") })),
            &mut map,
        );
        assert_eq!(action, ConnectionAction::Request(Act::List));
        phase
    };
    let (phase, action) =
        handle_client(state, Happened::Request(Event::Listed(Ok(vec![]))), &mut map);
    assert_eq!(phase, ConnectionPhase::Over);
    assert_eq!(action, ConnectionAction::Fail(RequestError::DeviceNotFound));
}

#[test]
fn connection_failures_are_passed_on() {
    let mut map: DeviceMap<u32> = DeviceMap::new();
    for (phase, event) in [
        (ConnectionPhase::Reading, Happened::Received(Err("e"))),
        (ConnectionPhase::Decoding, Happened::Decoded(Err("e"))),
        (ConnectionPhase::Encoding, Happened::Encoded(Err("e"))),
        (ConnectionPhase::Writing, Happened::Written(Err("e"))),
    ] {
        let (phase, action) = handle_client(phase, event, &mut map);
        assert_eq!(phase, ConnectionPhase::Over);
        assert_eq!(action, ConnectionAction::Fail(RequestError::Operation("e")));
    }
    let (phase, action) = handle_client(ConnectionPhase::Over, Happened::Started, &mut map);
    assert_eq!(phase, ConnectionPhase::Over);
    assert_eq!(action, ConnectionAction::Ignore);
}

#[test]
fn only_an_unknown_device_has_a_text() {
    let error: RequestError<&'static str> = RequestError::DeviceNotFound;
    assert_eq!(error_text(&error), Some(s("Device not found")));
    assert_eq!(error_text(&RequestError::Operation("e")), None);
}

#[test]
fn a_failed_request_keeps_the_map() {
    let mut map: DeviceMap<u32> = DeviceMap::new();
    connect(&mut map, "A", 1);
    let (state, _): (RequestState, Act) =
        advance(RequestState::Listing { name: s("A") }, Event::Listed(Ok(vec![s("A")])), &mut map);
    let (_, action): (RequestState, Act) = advance(state, Event::Connected(Err("e")), &mut map);
    assert_eq!(action, Act::Fail(RequestError::Operation("e")));
    assert_eq!(map.len(), 1);
    assert_eq!(map.get(&s("A")), Some(&1));
}

#[test]
fn actors_are_asked_in_order() {
    let status = |name: &str, charge| DeviceStatus { name: s(name), battery_charge: charge };
    let (phase, action) = ask_actors(StatusPhase::Created, StatusEvent::Started, 3);
    assert_eq!(action, StatusAction::Ask { index: 0 });
    let (phase, action) = ask_actors(phase, StatusEvent::Answered(Some(status("A", Some(7)))), 3);
    assert_eq!(action, StatusAction::Ask { index: 1 });
    let (phase, action) = ask_actors(phase, StatusEvent::Answered(None), 3);
    assert_eq!(action, StatusAction::Ask { index: 2 });
    let (phase, action) = ask_actors(phase, StatusEvent::Answered(Some(status("C", None))), 3);
    assert_eq!(
        action,
        StatusAction::Finish(vec![status("A", Some(7)), status("C", None)])
    );
    assert_eq!(phase, StatusPhase::Over);
    let (phase, action) = ask_actors(phase, StatusEvent::Answered(None), 3);
    assert_eq!(action, StatusAction::Ignore);
    assert_eq!(phase, StatusPhase::Over);
}

#[test]
fn no_actor_is_asked_where_there_is_none() {
    let (phase, action) = ask_actors(StatusPhase::Created, StatusEvent::Started, 0);
    assert_eq!(action, StatusAction::Finish(vec![]));
    assert_eq!(phase, StatusPhase::Over);
    let last = StatusPhase::Asking { index: usize::MAX, answers: vec![] };
    let (phase, action) = ask_actors(last, StatusEvent::Answered(None), usize::MAX);
    assert_eq!(action, StatusAction::Finish(vec![]));
    assert_eq!(phase, StatusPhase::Over);
}

#[test]
fn another_connection_reaches_the_actor() {
    let mut map: DeviceMap<u32> = DeviceMap::new();
    {
        let state = RequestState::Spawning { name: s("A") };
        let (phase, action) = handle_client(
            ConnectionPhase::Serving { state },
            Happened::Request(Event::Spawned(8)),
            &mut map,
        );
        assert_eq!(phase, ConnectionPhase::Encoding);
        assert_eq!(action, ConnectionAction::Encode(DaemonResponse::Success));
    }
    {
        let command = ClientCommand::Record { name: s("A") };
        let (_, action) =
            handle_client(ConnectionPhase::Decoding, Happened::Decoded(Ok(command)), &mut map);
        assert_eq!(
            action,
            ConnectionAction::Request(Act::Record { actor: &8, lsl_stream_name: s("A") })
        );
    }
    let command = ClientCommand::Disconnect { name: s("A") };
    let (_, action) =
        handle_client(ConnectionPhase::Decoding, Happened::Decoded(Ok(command)), &mut map);
    assert_eq!(action, ConnectionAction::Request(Act::Dismiss { removed: 8 }));
}
