use mitch_cli::btle_daemon::{
    can_take, run_daemon, BtleDaemonAction, BtleDaemonEvent, BtleDaemonPhase, Endpoint, Shared,
};
use mitch_cli::client::{
    launch, report, run_client, ClientAction, ClientEvent, ClientPhase, Command, Launch, Report,
    DEFAULT_SCAN_MS,
};
use mitch_cli::daemon::{
    shut_down, Daemon, DaemonAction, DaemonError, DaemonEvent, DaemonPhase, ShutdownAction,
    ShutdownPhase,
};
use mitch_cli::device_map::DeviceMap;
use mitch_cli::protocol::{ClientCommand, DaemonResponse, DeviceStatus};
use std::sync::Arc;

type Actors = DeviceMap<u16>;
type DEvent = DaemonEvent<u32, &'static str>;
type DAction<'a> = DaemonAction<'a, u8, u8, Actors, u32, &'static str>;
type BPhase = BtleDaemonPhase<u8, Actors, u32>;
type BEvent = BtleDaemonEvent<u8, Actors, u32, &'static str>;
type BAction = BtleDaemonAction<u8, Actors, u16, u32, &'static str>;
type CEvent = ClientEvent<&'static str>;
type CAction = ClientAction<&'static str>;

fn s(text: &str) -> String {
    text.to_string()
}

fn daemon() -> Daemon<u8, u8, Actors> {
    Daemon::new(1, vec![7, 8], |mut map: Actors| {
        assert!(map.is_empty());
        map.insert(s("shared"), 9);
        map
    })
}

fn shared(adapter: u8) -> Arc<Shared<u8, Actors>> {
    Arc::new(Shared { adapter, device_map: DeviceMap::new() })
}

#[test]
fn a_daemon_uses_the_first_adapter() {
    let d = daemon();
    assert_eq!(d.session, 1);
    assert_eq!(d.adapter, 7);
    assert_eq!(d.device_map.get(&s("shared")), Some(&9));
}

#[test]
fn a_daemon_accepts_for_good() {
    let d = daemon();
    let (phase, action) = d.run(DaemonPhase::Created, DEvent::Started);
    assert_eq!(action, DAction::InstallHandler);
    let (phase, action) = d.run(phase, DEvent::Installed(Ok(())));
    assert_eq!(action, DAction::Bind);
    let (phase, action) = d.run(phase, DEvent::Bound(Ok(())));
    assert_eq!(action, DAction::Accept);
    let (phase, action) = d.run(phase, DEvent::Accepted(Err("e")));
    assert_eq!(action, DAction::Report("e"));
    let (phase, action) = d.run(phase, DEvent::Accepted(Ok(5)));
    assert_eq!(action, DAction::Serve { client: 5, daemon: &d });
    let (phase, action) = d.run(phase, DEvent::Accepted(Ok(6)));
    assert_eq!(action, DAction::Serve { client: 6, daemon: &d });
    let (phase, action) = d.run(phase, DEvent::Started);
    assert_eq!(action, DAction::Ignore);
    assert_eq!(phase, DaemonPhase::Accepting);
}

#[test]
fn a_daemon_that_cannot_start_says_why() {
    let d = daemon();
    let (phase, action) = d.run(DaemonPhase::InstallingHandler, DEvent::Installed(Err("e")));
    assert_eq!(phase, DaemonPhase::Failed);
    assert_eq!(action, DAction::Fail(DaemonError::Operation("e")));
    let (phase, action) = d.run(DaemonPhase::Binding, DEvent::Bound(Err("in use")));
    assert_eq!(phase, DaemonPhase::Failed);
    assert_eq!(
        action,
        DAction::Fail(DaemonError::Bind {
            context: s("There seems to be a daemon running allready"),
            error: "in use",
        })
    );
}

#[test]
fn shutdown_tells_every_actor_and_waits() {
    let mut phase = ShutdownPhase::Interrupted;
    let mut actions = Vec::new();
    for entries in [2, 2, 2, 2, 2, 1, 0] {
        let (next, action) = shut_down(phase, entries);
        phase = next;
        actions.push(action);
    }
    assert_eq!(
        actions,
        vec![
            ShutdownAction::RemoveSocket,
            ShutdownAction::Tell { index: 0 },
            ShutdownAction::Tell { index: 1 },
            ShutdownAction::Look,
            ShutdownAction::Sleep { ms: 50 },
            ShutdownAction::Sleep { ms: 50 },
            ShutdownAction::Exit { code: 0 },
        ]
    );
    assert_eq!(phase, ShutdownPhase::Over);
}

fn start(endpoint: Endpoint) -> (BPhase, BAction) {
    let (phase, action): (BPhase, BAction) =
        run_daemon(endpoint, BPhase::Created, BEvent::Started);
    assert_eq!(action, BAction::OpenManager);
    let (phase, action): (BPhase, BAction) = run_daemon(endpoint, phase, BEvent::Done(Ok(())));
    assert_eq!(action, BAction::ListAdapters);
    assert!(!can_take(&phase, &BEvent::Adapters(Ok(vec![]))));
    assert!(can_take(&phase, &BEvent::Adapters(Ok(vec![4, 5]))));
    let (phase, action): (BPhase, BAction) =
        run_daemon(endpoint, phase, BEvent::Adapters(Ok(vec![4, 5])));
    let map = match action {
        BtleDaemonAction::ShareMap(map) => map,
        other => panic!("{:?}", other),
    };
    assert!(map.is_empty());
    run_daemon(endpoint, phase, BEvent::MapShared(map))
}

#[test]
fn a_btle_daemon_on_a_socket() {
    let (phase, action) = start(Endpoint::Socket);
    assert_eq!(action, BAction::RemoveSocket);
    let (phase, action): (BPhase, BAction) =
        run_daemon(Endpoint::Socket, phase, BEvent::Done(Err("no such file")));
    assert_eq!(action, BAction::Bind);
    let (phase, action): (BPhase, BAction) =
        run_daemon(Endpoint::Socket, phase, BEvent::Done(Ok(())));
    assert_eq!(action, BAction::Accept);
    assert_eq!(phase, BPhase::Accepting { shared: shared(4) });
    let (phase, action): (BPhase, BAction) =
        run_daemon(Endpoint::Socket, phase, BEvent::Client(Err("e")));
    assert_eq!(action, BAction::Report("e"));
    let (phase, action): (BPhase, BAction) =
        run_daemon(Endpoint::Socket, phase, BEvent::Client(Ok(6)));
    assert_eq!(action, BAction::Serve { client: 6, shared: shared(4) });
    let (phase, action): (BPhase, BAction) =
        run_daemon(Endpoint::Socket, phase, BEvent::Client(Ok(7)));
    assert_eq!(action, BAction::Serve { client: 7, shared: shared(4) });
    assert_eq!(phase, BPhase::Accepting { shared: shared(4) });
}

#[test]
fn a_btle_daemon_on_pipes() {
    let (phase, action) = start(Endpoint::Pipe);
    assert_eq!(action, BAction::CreatePipe);
    let (phase, action): (BPhase, BAction) =
        run_daemon(Endpoint::Pipe, phase, BEvent::Client(Ok(6)));
    assert_eq!(action, BAction::ConnectPipe);
    let (phase, action): (BPhase, BAction) =
        run_daemon(Endpoint::Pipe, phase, BEvent::Done(Ok(())));
    assert_eq!(action, BAction::ServePipe { client: 6, shared: shared(4) });
    assert_eq!(phase, BPhase::CreatingPipe { shared: shared(4) });
    let (phase, action): (BPhase, BAction) =
        run_daemon(Endpoint::Pipe, phase, BEvent::Client(Err("e")));
    assert_eq!(action, BAction::Fail("e"));
    assert_eq!(phase, BPhase::Failed);
}

#[test]
fn btle_daemon_failures_are_passed_on() {
    for (phase, event) in [
        (BPhase::OpeningManager, BEvent::Done(Err("e"))),
        (BPhase::ListingAdapters, BEvent::Adapters(Err("e"))),
        (BPhase::Binding { shared: shared(1) }, BEvent::Done(Err("e"))),
        (BPhase::ConnectingPipe { shared: shared(1), pipe: 2 }, BEvent::Done(Err("e"))),
    ] {
        let (phase, action): (BPhase, BAction) = run_daemon(Endpoint::Socket, phase, event);
        assert_eq!(phase, BPhase::Failed);
        assert_eq!(action, BAction::Fail("e"));
    }
}

#[test]
fn commands_become_requests() {
    assert_eq!(launch(Command::DaemonStart), Launch::Daemon);
    assert_eq!(
        launch(Command::Scan { timeout: DEFAULT_SCAN_MS }),
        Launch::Client(ClientCommand::Scan { timeout_ms: 2000 })
    );
    assert_eq!(launch(Command::Status), Launch::Client(ClientCommand::Status));
    assert_eq!(
        launch(Command::Connect { name: s("a") }),
        Launch::Client(ClientCommand::Connect { name: s("a") })
    );
    assert_eq!(
        launch(Command::Disconnect { name: s("a") }),
        Launch::Client(ClientCommand::Disconnect { name: s("a") })
    );
    assert_eq!(
        launch(Command::Record { name: s("a") }),
        Launch::Client(ClientCommand::Record { name: s("a") })
    );
}

#[test]
fn answers_are_shown() {
    assert_eq!(report(DaemonResponse::Success), Report::Output(s("Success.")));
    assert_eq!(
        report(DaemonResponse::Error(s("Device not connected"))),
        Report::Failure(s("Daemon error: Device not connected"))
    );
    assert_eq!(
        report(DaemonResponse::Devices(vec![s("a")])),
        Report::Details(DaemonResponse::Devices(vec![s("a")]))
    );
    let statuses = || DaemonResponse::Statuses(vec![DeviceStatus { name: s("a"), battery_charge: None }]);
    assert_eq!(report(statuses()), Report::Details(statuses()));
}

#[test]
fn a_client_exchanges_one_request() {
    let command = || ClientCommand::Record { name: s("a") };
    let (phase, action) = run_client(
        ClientPhase::Created { command: command() },
        CEvent::Started { path: s("/tmp/mitch") },
    );
    assert_eq!(action, CAction::Open);
    let (phase, action) = run_client(phase, CEvent::Done(Ok(())));
    assert_eq!(action, CAction::Encode(command()));
    let (phase, action) = run_client(phase, CEvent::Encoded(Ok(vec![1])));
    assert_eq!(action, CAction::Send(vec![1]));
    let (phase, action) = run_client(phase, CEvent::Done(Ok(())));
    assert_eq!(action, CAction::CloseSending);
    let (phase, action) = run_client(phase, CEvent::Done(Ok(())));
    assert_eq!(action, CAction::Receive);
    let (phase, action) = run_client(phase, CEvent::Received(Ok(vec![2])));
    assert_eq!(action, CAction::Decode(vec![2]));
    let (phase, action) = run_client(phase, CEvent::Decoded(Ok(DaemonResponse::Success)));
    assert_eq!(action, CAction::Show(Report::Output(s("Success."))));
    let (phase, action) = run_client(phase, CEvent::Done(Ok(())));
    assert_eq!(action, CAction::Ignore);
    assert_eq!(phase, ClientPhase::Over);
}

#[test]
fn a_client_without_daemon_says_so() {
    let phase = ClientPhase::Opening { path: s("/tmp/mitch"), command: ClientCommand::Status };
    let (phase, action) = run_client(phase, CEvent::Done(Err("refused")));
    assert_eq!(phase, ClientPhase::Over);
    assert_eq!(
        action,
        CAction::FailWith {
            lines: vec![
                s("Error: Could not connect to daemon (/tmp/mitch). Is it running?"),
                s("Try running: `mitch_cli daemon-start`"),
            ],
            error: "refused",
        }
    );
}

#[test]
fn client_failures_are_passed_on() {
    for (phase, event) in [
        (ClientPhase::Encoding, CEvent::Encoded(Err("e"))),
        (ClientPhase::Sending, CEvent::Done(Err("e"))),
        (ClientPhase::Closing, CEvent::Done(Err("e"))),
        (ClientPhase::Receiving, CEvent::Received(Err("e"))),
        (ClientPhase::Decoding, CEvent::Decoded(Err("e"))),
    ] {
        let (phase, action) = run_client(phase, event);
        assert_eq!(phase, ClientPhase::Over);
        assert_eq!(action, CAction::Fail("e"));
    }
}
