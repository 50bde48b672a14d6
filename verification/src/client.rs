//! What the command line client does.

use crate::protocol::{ClientCommand, DaemonResponse};
use vstd::prelude::*;

verus! {

/// How long a scan lasts where nothing else is asked for, in milliseconds.
pub const DEFAULT_SCAN_MS: u64 = 2000;

/// What the command line asks for.
#[derive(Debug, PartialEq, Eq)]
pub enum Command {
    DaemonStart,
    Scan { timeout: u64 },
    Status,
    Connect { name: String },
    Disconnect { name: String },
    Record { name: String },
}

/// What the process becomes.
#[derive(Debug, PartialEq, Eq)]
pub enum Launch {
    Daemon,
    Client(ClientCommand),
}

/// What the process becomes for a command.
pub fn launch(command: Command) -> (launched: Launch)
    ensures
        launched == (match command {
            Command::DaemonStart => Launch::Daemon,
            Command::Scan { timeout } => Launch::Client(
                ClientCommand::Scan { timeout_ms: timeout },
            ),
            Command::Status => Launch::Client(ClientCommand::Status),
            Command::Connect { name } => Launch::Client(ClientCommand::Connect { name }),
            Command::Disconnect { name } => Launch::Client(ClientCommand::Disconnect { name }),
            Command::Record { name } => Launch::Client(ClientCommand::Record { name }),
        }),
{
    match command {
        Command::DaemonStart => Launch::Daemon,
        Command::Scan { timeout } => Launch::Client(ClientCommand::Scan { timeout_ms: timeout }),
        Command::Status => Launch::Client(ClientCommand::Status),
        Command::Connect { name } => Launch::Client(ClientCommand::Connect { name }),
        Command::Disconnect { name } => Launch::Client(ClientCommand::Disconnect { name }),
        Command::Record { name } => Launch::Client(ClientCommand::Record { name }),
    }
}

/// How an answer is shown.
#[derive(Debug, PartialEq, Eq)]
pub enum Report {
    /// As this line of output.
    Output(String),
    /// As this line among the errors.
    Failure(String),
    /// As output, with all that it holds.
    Details(DaemonResponse),
}

/// Whether an answer is shown like this.
pub open spec fn shows(response: DaemonResponse, report: Report) -> bool {
    match response {
        DaemonResponse::Success => report matches Report::Output(line) && line@ == "Success."@,
        DaemonResponse::Error(err) => report matches Report::Failure(line) && line@
            == "Daemon error: "@ + err@,
        _ => report == Report::Details(response),
    }
}

/// How an answer is shown.
pub fn report(response: DaemonResponse) -> (shown: Report)
    ensures
        shows(response, shown),
{
    match response {
        DaemonResponse::Success => Report::Output("Success.".to_string()),
        DaemonResponse::Error(err) => {
            let mut line = "Daemon error: ".to_string();
            line.append(err.as_str());
            Report::Failure(line)
        },
        other => Report::Details(other),
    }
}

/// What is said where the daemon cannot be reached under this path.
pub open spec fn unreachable_lines(path: Seq<char>) -> Seq<Seq<char>> {
    seq![
        "Error: Could not connect to daemon ("@ + path + "). Is it running?"@,
        "Try running: `mitch_cli daemon-start`"@,
    ]
}

/// What is said where the daemon cannot be reached under this path.
fn unreachable_report(path: &String) -> (lines: Vec<String>)
    ensures
        lines.deep_view() == unreachable_lines(path@),
{
    let mut first = "Error: Could not connect to daemon (".to_string();
    first.append(path.as_str());
    first.append("). Is it running?");
    let mut lines: Vec<String> = Vec::new();
    lines.push(first);
    lines.push("Try running: `mitch_cli daemon-start`".to_string());
    assert(lines.deep_view() =~= unreachable_lines(path@));
    lines
}

/// What a client is waiting for.
#[derive(Debug, PartialEq, Eq)]
pub enum ClientPhase {
    Created { command: ClientCommand },
    Opening { path: String, command: ClientCommand },
    Encoding,
    Sending,
    Closing,
    Receiving,
    Decoding,
    Over,
}

/// What happened. `E` is the error of an operation that failed.
#[derive(Debug, PartialEq, Eq)]
pub enum ClientEvent<E> {
    /// The client was started, and the daemon listens under this path.
    Started { path: String },
    /// The outcome of `Encode`.
    Encoded(Result<Vec<u8>, E>),
    /// The outcome of `Receive`.
    Received(Result<Vec<u8>, E>),
    /// The outcome of `Decode`.
    Decoded(Result<DaemonResponse, E>),
    /// The outcome of an operation that yields nothing.
    Done(Result<(), E>),
}

/// What the driver has to do.
#[derive(Debug, PartialEq, Eq)]
pub enum ClientAction<E> {
    /// Connect to the daemon.
    Open,
    /// Put the command into bytes.
    Encode(ClientCommand),
    /// Send all of these bytes.
    Send(Vec<u8>),
    /// Close the sending half of the connection.
    CloseSending,
    /// Receive until the daemon closes the connection.
    Receive,
    /// Read an answer out of the bytes.
    Decode(Vec<u8>),
    /// Show the answer. The client is done.
    Show(Report),
    /// Say these lines among the errors. The client ends with the error.
    FailWith { lines: Vec<String>, error: E },
    /// The client ends with the error.
    Fail(E),
    /// The event was not what the client waits for; it still waits.
    Ignore,
}

/// Whether a client goes over from `phase` to `next` and asks for `action` when
/// `event` happens.
pub open spec fn goes_on<E>(
    phase: ClientPhase,
    event: ClientEvent<E>,
    next: ClientPhase,
    action: ClientAction<E>,
) -> bool {
    match (phase, event) {
        (ClientPhase::Created { command }, ClientEvent::Started { path }) => {
            &&& next == ClientPhase::Opening { path, command }
            &&& action is Open
        },
        (ClientPhase::Opening { command, .. }, ClientEvent::Done(Ok(_))) => {
            &&& next is Encoding
            &&& action == ClientAction::<E>::Encode(command)
        },
        (ClientPhase::Opening { path, .. }, ClientEvent::Done(Err(e))) => {
            &&& next is Over
            &&& action matches ClientAction::FailWith { lines, error }
            &&& lines.deep_view() == unreachable_lines(path@)
            &&& error == e
        },
        (ClientPhase::Encoding, ClientEvent::Encoded(Ok(bytes))) => {
            &&& next is Sending
            &&& action == ClientAction::<E>::Send(bytes)
        },
        (ClientPhase::Encoding, ClientEvent::Encoded(Err(e))) => ends(next, e, action),
        (ClientPhase::Sending, ClientEvent::Done(Ok(_))) => {
            &&& next is Closing
            &&& action is CloseSending
        },
        (ClientPhase::Sending, ClientEvent::Done(Err(e))) => ends(next, e, action),
        (ClientPhase::Closing, ClientEvent::Done(Ok(_))) => {
            &&& next is Receiving
            &&& action is Receive
        },
        (ClientPhase::Closing, ClientEvent::Done(Err(e))) => ends(next, e, action),
        (ClientPhase::Receiving, ClientEvent::Received(Ok(bytes))) => {
            &&& next is Decoding
            &&& action == ClientAction::<E>::Decode(bytes)
        },
        (ClientPhase::Receiving, ClientEvent::Received(Err(e))) => ends(next, e, action),
        (ClientPhase::Decoding, ClientEvent::Decoded(Ok(response))) => {
            &&& next is Over
            &&& action matches ClientAction::Show(shown)
            &&& shows(response, shown)
        },
        (ClientPhase::Decoding, ClientEvent::Decoded(Err(e))) => ends(next, e, action),
        _ => next == phase && action is Ignore,
    }
}

/// The client ends with the error.
pub open spec fn ends<E>(next: ClientPhase, error: E, action: ClientAction<E>) -> bool {
    next is Over && action == ClientAction::<E>::Fail(error)
}

/// What the client does when `event` happens.
pub fn run_client<E>(phase: ClientPhase, event: ClientEvent<E>) -> (result: (
    ClientPhase,
    ClientAction<E>,
))
    ensures
        goes_on(phase, event, result.0, result.1),
{
    match (phase, event) {
        (ClientPhase::Created { command }, ClientEvent::Started { path }) => (
            ClientPhase::Opening { path, command },
            ClientAction::Open,
        ),
        (ClientPhase::Opening { command, .. }, ClientEvent::Done(Ok(_))) => (
            ClientPhase::Encoding,
            ClientAction::Encode(command),
        ),
        (ClientPhase::Opening { path, .. }, ClientEvent::Done(Err(error))) => {
            let lines = unreachable_report(&path);
            (ClientPhase::Over, ClientAction::FailWith { lines, error })
        },
        (ClientPhase::Encoding, ClientEvent::Encoded(Ok(bytes))) => (
            ClientPhase::Sending,
            ClientAction::Send(bytes),
        ),
        (ClientPhase::Encoding, ClientEvent::Encoded(Err(e))) => (
            ClientPhase::Over,
            ClientAction::Fail(e),
        ),
        (ClientPhase::Sending, ClientEvent::Done(Ok(_))) => (
            ClientPhase::Closing,
            ClientAction::CloseSending,
        ),
        (ClientPhase::Sending, ClientEvent::Done(Err(e))) => (
            ClientPhase::Over,
            ClientAction::Fail(e),
        ),
        (ClientPhase::Closing, ClientEvent::Done(Ok(_))) => (
            ClientPhase::Receiving,
            ClientAction::Receive,
        ),
        (ClientPhase::Closing, ClientEvent::Done(Err(e))) => (
            ClientPhase::Over,
            ClientAction::Fail(e),
        ),
        (ClientPhase::Receiving, ClientEvent::Received(Ok(bytes))) => (
            ClientPhase::Decoding,
            ClientAction::Decode(bytes),
        ),
        (ClientPhase::Receiving, ClientEvent::Received(Err(e))) => (
            ClientPhase::Over,
            ClientAction::Fail(e),
        ),
        (ClientPhase::Decoding, ClientEvent::Decoded(Ok(response))) => (
            ClientPhase::Over,
            ClientAction::Show(report(response)),
        ),
        (ClientPhase::Decoding, ClientEvent::Decoded(Err(e))) => (
            ClientPhase::Over,
            ClientAction::Fail(e),
        ),
        (phase, _) => (phase, ClientAction::Ignore),
    }
}

/// A client starts to receive only when it has closed its sending half, so that
/// a daemon that reads to the end gets there.
pub proof fn lemma_closed_before_receiving<E>(
    phase: ClientPhase,
    event: ClientEvent<E>,
    next: ClientPhase,
    action: ClientAction<E>,
)
    requires
        goes_on(phase, event, next, action),
    ensures
        action is Receive <==> phase is Closing && (event matches ClientEvent::Done(Ok(_))),
        action is CloseSending <==> phase is Sending && (event matches ClientEvent::Done(Ok(_))),
        next is Closing && !(phase is Closing) ==> action is CloseSending,
{
}

/// A client that meets no failure sends its own command, closes its sending
/// half, receives, and shows the answer that it received.
pub proof fn lemma_exchange<E>(
    command: ClientCommand,
    path: String,
    request: Vec<u8>,
    reply: Vec<u8>,
    response: DaemonResponse,
    phases: Seq<ClientPhase>,
    actions: Seq<ClientAction<E>>,
)
    requires
        phases.len() == 8,
        actions.len() == 7,
        phases[0] == (ClientPhase::Created { command }),
        goes_on(phases[0], ClientEvent::<E>::Started { path }, phases[1], actions[0]),
        goes_on(phases[1], ClientEvent::<E>::Done(Ok(())), phases[2], actions[1]),
        goes_on(phases[2], ClientEvent::<E>::Encoded(Ok(request)), phases[3], actions[2]),
        goes_on(phases[3], ClientEvent::<E>::Done(Ok(())), phases[4], actions[3]),
        goes_on(phases[4], ClientEvent::<E>::Done(Ok(())), phases[5], actions[4]),
        goes_on(phases[5], ClientEvent::<E>::Received(Ok(reply)), phases[6], actions[5]),
        goes_on(phases[6], ClientEvent::<E>::Decoded(Ok(response)), phases[7], actions[6]),
    ensures
        actions.take(6) == seq![
            ClientAction::<E>::Open,
            ClientAction::<E>::Encode(command),
            ClientAction::<E>::Send(request),
            ClientAction::<E>::CloseSending,
            ClientAction::<E>::Receive,
            ClientAction::<E>::Decode(reply),
        ],
        actions[6] matches ClientAction::Show(shown) && shows(response, shown),
        actions[6] matches ClientAction::Show(shown) && (match response {
            DaemonResponse::Success => shown is Output && shown->Output_0@ == "Success."@,
            DaemonResponse::Error(text) => shown is Failure && shown->Failure_0@
                == "Daemon error: "@ + text@,
            _ => shown == Report::Details(response),
        }),
        phases[7] is Over,
{
}

/// A client that is over stays so, and one is over exactly when it has shown an
/// answer or ended with the error that it was handed.
pub proof fn lemma_client_ends_once<E>(
    phase: ClientPhase,
    event: ClientEvent<E>,
    next: ClientPhase,
    action: ClientAction<E>,
)
    requires
        goes_on(phase, event, next, action),
    ensures
        phase is Over ==> next is Over && action is Ignore,
        action is Show || action is Fail || action is FailWith <==> next is Over && !(
        phase is Over),
{
}

/// Only `daemon-start` makes the process the daemon. Every other command makes it
/// a client with the request of the same kind, for the same time or name.
pub proof fn lemma_launch(command: Command, launched: Launch)
    requires
        call_ensures(launch, (command,), launched),
    ensures
        call_requires(launch, (command,)),
        launched is Daemon <==> command is DaemonStart,
        launched matches Launch::Client(request) ==> {
            &&& request is Status <==> command is Status
            &&& request matches ClientCommand::Scan { timeout_ms } ==> (
            command matches Command::Scan { timeout } && timeout_ms == timeout)
            &&& request matches ClientCommand::Connect { name } ==> (
            command matches Command::Connect { name: given } && name@ == given@)
            &&& request matches ClientCommand::Disconnect { name } ==> (
            command matches Command::Disconnect { name: given } && name@ == given@)
            &&& request matches ClientCommand::Record { name } ==> (
            command matches Command::Record { name: given } && name@ == given@)
        },
{
}

/// Success is shown as such, an error as the daemon's error with its text, and any
/// other answer as it came, with all that it holds.
pub proof fn lemma_report(response: DaemonResponse, shown: Report)
    requires
        call_ensures(report, (response,), shown),
    ensures
        call_requires(report, (response,)),
        response is Success ==> shown is Output && shown->Output_0@ == "Success."@,
        response matches DaemonResponse::Error(text) ==> shown is Failure && shown->Failure_0@
            == "Daemon error: "@ + text@,
        response matches DaemonResponse::Devices(names) ==> {
            &&& shown matches Report::Details(DaemonResponse::Devices(told))
            &&& told@ == names@
        },
        response matches DaemonResponse::Statuses(statuses) ==> {
            &&& shown matches Report::Details(DaemonResponse::Statuses(told))
            &&& told@ == statuses@
        },
        shown matches Report::Details(told) ==> told == response,
{
}

/// A client connects, encodes its own command, sends what was encoded, closes its
/// sending half, receives, decodes what it received and shows the answer. Each
/// comes when the one before it has worked.
pub proof fn lemma_client_steps<E>(
    phase: ClientPhase,
    event: ClientEvent<E>,
    next: ClientPhase,
    action: ClientAction<E>,
)
    requires
        call_ensures(run_client::<E>, (phase, event), (next, action)),
    ensures
        action is Open <==> phase is Created && event is Started,
        action is Open ==> {
            &&& next matches ClientPhase::Opening { path, command }
            &&& phase == (ClientPhase::Created { command })
            &&& event == (ClientEvent::<E>::Started { path })
        },
        action is Encode <==> phase is Opening && (event matches ClientEvent::Done(Ok(_))),
        action matches ClientAction::Encode(told) ==> next is Encoding && (
        phase matches ClientPhase::Opening { command, .. } && told == command),
        action is Send <==> phase is Encoding && (event matches ClientEvent::Encoded(Ok(_))),
        action matches ClientAction::Send(bytes) ==> next is Sending && event == ClientEvent::<
            E,
        >::Encoded(Ok(bytes)),
        action is CloseSending <==> phase is Sending && (event matches ClientEvent::Done(Ok(_))),
        action is CloseSending ==> next is Closing,
        action is Receive <==> phase is Closing && (event matches ClientEvent::Done(Ok(_))),
        action is Receive ==> next is Receiving,
        action is Decode <==> phase is Receiving && (event matches ClientEvent::Received(Ok(_))),
        action matches ClientAction::Decode(bytes) ==> next is Decoding && event == ClientEvent::<
            E,
        >::Received(Ok(bytes)),
        action is Show <==> phase is Decoding && (event matches ClientEvent::Decoded(Ok(_))),
        action is Show ==> next is Over,
{
}

/// What a client shows of the answer that it decoded: success as such, an error as
/// the daemon's error with its text, and any other answer as it came.
pub proof fn lemma_client_shows_the_answer<E>(
    phase: ClientPhase,
    response: DaemonResponse,
    next: ClientPhase,
    shown: Report,
)
    requires
        call_ensures(
            run_client::<E>,
            (phase, ClientEvent::<E>::Decoded(Ok(response))),
            (next, ClientAction::<E>::Show(shown)),
        ),
    ensures
        match response {
            DaemonResponse::Success => shown is Output && shown->Output_0@ == "Success."@,
            DaemonResponse::Error(text) => shown is Failure && shown->Failure_0@
                == "Daemon error: "@ + text@,
            _ => shown == Report::Details(response),
        },
{
}

/// A client that cannot connect says under which path and what to try, and ends
/// with the error; one that fails later ends with the error alone. What it does
/// not wait for changes nothing.
pub proof fn lemma_client_failures<E>(
    phase: ClientPhase,
    event: ClientEvent<E>,
    next: ClientPhase,
    action: ClientAction<E>,
)
    requires
        call_ensures(run_client::<E>, (phase, event), (next, action)),
    ensures
        call_requires(run_client::<E>, (phase, event)),
        action is FailWith <==> phase is Opening && (event matches ClientEvent::Done(Err(_))),
        action matches ClientAction::FailWith { lines, error } ==> {
            &&& event matches ClientEvent::Done(Err(e))
            &&& error == e
            &&& next is Over
            &&& phase matches ClientPhase::Opening { path, .. }
            &&& lines@.len() == 2
            &&& lines@[0]@ == "Error: Could not connect to daemon ("@ + path@ + "). Is it running?"@
            &&& lines@[1]@ == "Try running: `mitch_cli daemon-start`"@
        },
        action is Fail <==> {
            ||| phase is Encoding && (event matches ClientEvent::Encoded(Err(_)))
            ||| (phase is Sending || phase is Closing) && (event
                matches ClientEvent::Done(Err(_)))
            ||| phase is Receiving && (event matches ClientEvent::Received(Err(_)))
            ||| phase is Decoding && (event matches ClientEvent::Decoded(Err(_)))
        },
        action matches ClientAction::Fail(told) ==> next is Over && (match event {
            ClientEvent::Encoded(Err(e)) => told == e,
            ClientEvent::Done(Err(e)) => told == e,
            ClientEvent::Received(Err(e)) => told == e,
            ClientEvent::Decoded(Err(e)) => told == e,
            _ => false,
        }),
        action is Ignore <==> (match event {
            ClientEvent::Started { .. } => !(phase is Created),
            ClientEvent::Encoded(_) => !(phase is Encoding),
            ClientEvent::Received(_) => !(phase is Receiving),
            ClientEvent::Decoded(_) => !(phase is Decoding),
            ClientEvent::Done(_) => !(phase is Opening) && !(phase is Sending) && !(
            phase is Closing),
        }),
        action is Ignore ==> next == phase,
{
    if let ClientAction::FailWith { lines, .. } = action {
        assert(lines.deep_view().len() == lines@.len());
        assert(lines.deep_view()[0] == lines@[0]@);
        assert(lines.deep_view()[1] == lines@[1]@);
    }
}

} // verus!
