//! The daemon's side of the connection to one client: a request is read, served
//! and answered.

use crate::device_map::DeviceMap;
use crate::protocol::{ClientCommand, DaemonResponse};
use crate::request::{advance, begin, RequestAction, RequestError, RequestEvent, RequestState};
use vstd::prelude::*;

verus! {

/// What the connection is waiting for.
#[derive(Debug, PartialEq, Eq)]
pub enum ConnectionPhase {
    Created,
    Reading,
    Decoding,
    Serving { state: RequestState },
    Encoding,
    Writing,
    Over,
}

/// What happened. `T` is the sending end of an actor's command channel, `E` the
/// error of an operation that failed.
#[derive(Debug, PartialEq, Eq)]
pub enum ConnectionEvent<T, E> {
    Started,
    /// The outcome of `Read`.
    Received(Result<Vec<u8>, E>),
    /// The outcome of `Decode`.
    Decoded(Result<ClientCommand, E>),
    /// Something that the request may wait for.
    Request(RequestEvent<T, E>),
    /// The outcome of `Encode`.
    Encoded(Result<Vec<u8>, E>),
    /// The outcome of `Write`.
    Written(Result<(), E>),
}

/// What the driver has to do.
#[derive(Debug, PartialEq, Eq)]
pub enum ConnectionAction<'a, T, E> {
    /// Read until the client closes its sending half.
    Read,
    /// Read a command out of the bytes.
    Decode(Vec<u8>),
    /// Do what the request asks for.
    Request(RequestAction<'a, T, E>),
    /// Put the answer into bytes.
    Encode(DaemonResponse),
    /// Write all of these bytes.
    Write(Vec<u8>),
    /// The client was answered. Close the connection.
    Close,
    /// The request failed. Close the connection.
    Fail(RequestError<E>),
    /// The event was not what the connection waits for; it still waits.
    Ignore,
}

/// The state that the request is in where the connection goes over to `next`.
pub open spec fn request_state(next: ConnectionPhase) -> RequestState {
    match next {
        ConnectionPhase::Serving { state } => state,
        _ => RequestState::Over,
    }
}

/// What the request asks for where the connection asks for `action`.
pub open spec fn request_action<'a, T, E>(action: ConnectionAction<'a, T, E>) -> RequestAction<
    'a,
    T,
    E,
> {
    match action {
        ConnectionAction::Request(asked) => asked,
        ConnectionAction::Encode(response) => RequestAction::Answer(response),
        ConnectionAction::Fail(error) => RequestAction::Fail(error),
        _ => RequestAction::Ignore,
    }
}

/// A connection whose request is over encodes the answer or fails, and one whose
/// request goes on serves it.
pub open spec fn serves<'a, T, E>(
    next: ConnectionPhase,
    action: ConnectionAction<'a, T, E>,
) -> bool {
    match action {
        ConnectionAction::Request(asked) => next is Serving && !(asked is Answer) && !(
        asked is Fail),
        ConnectionAction::Encode(_) => next is Encoding,
        ConnectionAction::Fail(_) => next is Over,
        _ => false,
    }
}

/// Whether a connection goes over from `phase` to `next` and asks for `action`
/// when `event` happens, and turns the device map from `before` to `after`.
pub open spec fn handles<'a, T, E>(
    phase: ConnectionPhase,
    event: ConnectionEvent<T, E>,
    before: Map<Seq<char>, T>,
    after: Map<Seq<char>, T>,
    next: ConnectionPhase,
    action: ConnectionAction<'a, T, E>,
) -> bool {
    match (phase, event) {
        (ConnectionPhase::Created, ConnectionEvent::Started) => {
            &&& after == before
            &&& next is Reading
            &&& action is Read
        },
        (ConnectionPhase::Reading, ConnectionEvent::Received(Ok(bytes))) => {
            &&& after == before
            &&& next is Decoding
            &&& action matches ConnectionAction::Decode(read)
            &&& read == bytes
        },
        (ConnectionPhase::Reading, ConnectionEvent::Received(Err(e))) => {
            &&& after == before
            &&& ends(next, action, e)
        },
        (ConnectionPhase::Decoding, ConnectionEvent::Decoded(Ok(command))) => {
            &&& serves(next, action)
            &&& crate::request::begins(
                command,
                before,
                after,
                request_state(next),
                request_action(action),
            )
        },
        (ConnectionPhase::Decoding, ConnectionEvent::Decoded(Err(e))) => {
            &&& after == before
            &&& ends(next, action, e)
        },
        (ConnectionPhase::Serving { state }, ConnectionEvent::Request(happened)) => {
            &&& serves(next, action)
            &&& crate::request::advances(
                state,
                happened,
                before,
                after,
                request_state(next),
                request_action(action),
            )
        },
        (ConnectionPhase::Encoding, ConnectionEvent::Encoded(Ok(bytes))) => {
            &&& after == before
            &&& next is Writing
            &&& action matches ConnectionAction::Write(written)
            &&& written == bytes
        },
        (ConnectionPhase::Encoding, ConnectionEvent::Encoded(Err(e))) => {
            &&& after == before
            &&& ends(next, action, e)
        },
        (ConnectionPhase::Writing, ConnectionEvent::Written(Ok(_))) => {
            &&& after == before
            &&& next is Over
            &&& action is Close
        },
        (ConnectionPhase::Writing, ConnectionEvent::Written(Err(e))) => {
            &&& after == before
            &&& ends(next, action, e)
        },
        _ => after == before && next == phase && action is Ignore,
    }
}

/// The connection ends with the error of an operation.
pub open spec fn ends<'a, T, E>(
    next: ConnectionPhase,
    action: ConnectionAction<'a, T, E>,
    error: E,
) -> bool {
    &&& next is Over
    &&& action matches ConnectionAction::Fail(told)
    &&& told == RequestError::Operation(error)
}

fn serve<'a, T, E>(state: RequestState, action: RequestAction<'a, T, E>) -> (result: (
    ConnectionPhase,
    ConnectionAction<'a, T, E>,
))
    requires
        action is Answer || action is Fail ==> state is Over,
    ensures
        serves(result.0, result.1),
        request_state(result.0) == state,
        request_action(result.1) == action,
{
    match action {
        RequestAction::Answer(response) => (
            ConnectionPhase::Encoding,
            ConnectionAction::Encode(response),
        ),
        RequestAction::Fail(error) => (ConnectionPhase::Over, ConnectionAction::Fail(error)),
        other => (ConnectionPhase::Serving { state }, ConnectionAction::Request(other)),
    }
}

/// What the daemon does for a client when `event` happens.
pub fn handle_client<'a, T, E>(
    phase: ConnectionPhase,
    event: ConnectionEvent<T, E>,
    map: &'a mut DeviceMap<T>,
) -> (result: (ConnectionPhase, ConnectionAction<'a, T, E>))
    requires
        old(map).wf(),
    ensures
        final(map).wf(),
        handles(phase, event, old(map)@, final(map)@, result.0, result.1),
{
    match (phase, event) {
        (ConnectionPhase::Created, ConnectionEvent::Started) => (
            ConnectionPhase::Reading,
            ConnectionAction::Read,
        ),
        (ConnectionPhase::Reading, ConnectionEvent::Received(Ok(bytes))) => (
            ConnectionPhase::Decoding,
            ConnectionAction::Decode(bytes),
        ),
        (ConnectionPhase::Reading, ConnectionEvent::Received(Err(e))) => (
            ConnectionPhase::Over,
            ConnectionAction::Fail(RequestError::Operation(e)),
        ),
        (ConnectionPhase::Decoding, ConnectionEvent::Decoded(Ok(command))) => {
            let (state, action) = begin(command, map);
            serve(state, action)
        },
        (ConnectionPhase::Decoding, ConnectionEvent::Decoded(Err(e))) => (
            ConnectionPhase::Over,
            ConnectionAction::Fail(RequestError::Operation(e)),
        ),
        (ConnectionPhase::Serving { state }, ConnectionEvent::Request(happened)) => {
            let (state, action) = advance(state, happened, map);
            serve(state, action)
        },
        (ConnectionPhase::Encoding, ConnectionEvent::Encoded(Ok(bytes))) => (
            ConnectionPhase::Writing,
            ConnectionAction::Write(bytes),
        ),
        (ConnectionPhase::Encoding, ConnectionEvent::Encoded(Err(e))) => (
            ConnectionPhase::Over,
            ConnectionAction::Fail(RequestError::Operation(e)),
        ),
        (ConnectionPhase::Writing, ConnectionEvent::Written(Ok(_))) => (
            ConnectionPhase::Over,
            ConnectionAction::Close,
        ),
        (ConnectionPhase::Writing, ConnectionEvent::Written(Err(e))) => (
            ConnectionPhase::Over,
            ConnectionAction::Fail(RequestError::Operation(e)),
        ),
        (phase, _) => (phase, ConnectionAction::Ignore),
    }
}

/// A request to record or to disconnect a device that has no actor is answered
/// with the refusal, and what was encoded of it is what is written. The device
/// map stays as it is.
pub proof fn lemma_refused_request_is_answered<'a, T, E>(
    command: ClientCommand,
    name: Seq<char>,
    bytes: Vec<u8>,
    maps: Seq<Map<Seq<char>, T>>,
    phases: Seq<ConnectionPhase>,
    actions: Seq<ConnectionAction<'a, T, E>>,
)
    requires
        maps.len() == 3,
        phases.len() == 3,
        actions.len() == 2,
        command matches ClientCommand::Record { name: asked } && asked@ == name || (
        command matches ClientCommand::Disconnect { name: asked } && asked@ == name),
        !maps[0].contains_key(name),
        phases[0] is Decoding,
        handles(
            phases[0],
            ConnectionEvent::<T, E>::Decoded(Ok(command)),
            maps[0],
            maps[1],
            phases[1],
            actions[0],
        ),
        handles(
            phases[1],
            ConnectionEvent::<T, E>::Encoded(Ok(bytes)),
            maps[1],
            maps[2],
            phases[2],
            actions[1],
        ),
    ensures
        actions[0] matches ConnectionAction::Encode(DaemonResponse::Error(text)) && text@
            == crate::protocol::DEVICE_NOT_CONNECTED@,
        actions[1] matches ConnectionAction::Write(written) && written == bytes,
        maps[2] == maps[0],
{
}

/// A client is written what was encoded, right after it was encoded, and a
/// connection that is over does nothing any more.
pub proof fn lemma_writing_follows_encoding<'a, T, E>(
    phase: ConnectionPhase,
    event: ConnectionEvent<T, E>,
    before: Map<Seq<char>, T>,
    after: Map<Seq<char>, T>,
    next: ConnectionPhase,
    action: ConnectionAction<'a, T, E>,
)
    requires
        handles(phase, event, before, after, next, action),
    ensures
        action matches ConnectionAction::Write(bytes) ==> phase is Encoding && next is Writing
            && event == ConnectionEvent::<T, E>::Encoded(Ok(bytes)),
        phase is Writing ==> next is Writing && action is Ignore || next is Over,
        phase is Over ==> next is Over && action is Ignore && after == before,
        next is Encoding && !(phase is Encoding) ==> action is Encode,
{
}

/// The device map changes only while a request is served: where it asks to
/// disconnect a device, or where an actor was spawned.
pub proof fn lemma_map_changes<'a, T, E>(
    phase: ConnectionPhase,
    event: ConnectionEvent<T, E>,
    before: Map<Seq<char>, T>,
    after: Map<Seq<char>, T>,
    next: ConnectionPhase,
    action: ConnectionAction<'a, T, E>,
)
    requires
        handles(phase, event, before, after, next, action),
        after != before,
    ensures
        phase is Decoding && (event matches ConnectionEvent::Decoded(
            Ok(ClientCommand::Disconnect { .. }),
        )) || phase is Serving && (event matches ConnectionEvent::Request(
            RequestEvent::Spawned(_),
        )),
{
}

/// Whether a connection goes through these phases from its start on, with these
/// events and actions between them. Each step turns the device map from what it
/// was `befores` to what it was `afters`; other tasks may change it meanwhile.
pub open spec fn is_connection<'a, T, E>(
    phases: Seq<ConnectionPhase>,
    events: Seq<ConnectionEvent<T, E>>,
    befores: Seq<Map<Seq<char>, T>>,
    afters: Seq<Map<Seq<char>, T>>,
    actions: Seq<ConnectionAction<'a, T, E>>,
) -> bool {
    &&& phases.len() == events.len() + 1
    &&& befores.len() == events.len()
    &&& afters.len() == events.len()
    &&& actions.len() == events.len()
    &&& phases[0] is Created
    &&& forall|i: int|
        0 <= i < events.len() ==> handles(
            phases[i],
            #[trigger] events[i],
            befores[i],
            afters[i],
            phases[i + 1],
            actions[i],
        )
}

/// The number of times that bytes were to be written.
pub open spec fn writes<'a, T, E>(actions: Seq<ConnectionAction<'a, T, E>>) -> int
    decreases actions.len(),
{
    if actions.len() == 0 {
        0
    } else {
        writes(actions.drop_last()) + if actions.last() is Write {
            1int
        } else {
            0
        }
    }
}

proof fn lemma_writes<'a, T, E>(
    phases: Seq<ConnectionPhase>,
    events: Seq<ConnectionEvent<T, E>>,
    befores: Seq<Map<Seq<char>, T>>,
    afters: Seq<Map<Seq<char>, T>>,
    actions: Seq<ConnectionAction<'a, T, E>>,
    n: int,
)
    requires
        is_connection(phases, events, befores, afters, actions),
        0 <= n <= events.len(),
    ensures
        match phases[n] {
            ConnectionPhase::Writing => writes(actions.take(n)) == 1,
            ConnectionPhase::Over => writes(actions.take(n)) <= 1,
            _ => writes(actions.take(n)) == 0,
        },
    decreases n,
{
    if n > 0 {
        lemma_writes(phases, events, befores, afters, actions, n - 1);
        assert(actions.take(n).drop_last() =~= actions.take(n - 1));
        assert(handles(
            phases[n - 1],
            events[n - 1],
            befores[n - 1],
            afters[n - 1],
            phases[n],
            actions[n - 1],
        ));
    }
}

/// Over its whole connection a client is written to at most once.
pub proof fn lemma_written_once<'a, T, E>(
    phases: Seq<ConnectionPhase>,
    events: Seq<ConnectionEvent<T, E>>,
    befores: Seq<Map<Seq<char>, T>>,
    afters: Seq<Map<Seq<char>, T>>,
    actions: Seq<ConnectionAction<'a, T, E>>,
)
    requires
        is_connection(phases, events, befores, afters, actions),
    ensures
        writes(actions) <= 1,
        phases.last() is Writing ==> writes(actions) == 1,
{
    let n = events.len() as int;
    lemma_writes(phases, events, befores, afters, actions, n);
    assert(actions.take(n) =~= actions);
}

/// One thing that happens to the device map that the tasks of a daemon share.
#[verifier::reject_recursive_types(T)]
#[verifier::reject_recursive_types(E)]
pub enum MapStep<'a, T, E> {
    /// Some connection takes a step.
    Connection {
        phase: ConnectionPhase,
        event: ConnectionEvent<T, E>,
        next: ConnectionPhase,
        action: ConnectionAction<'a, T, E>,
    },
    /// An actor takes the entry with its name out.
    Removal { name: Seq<char> },
}

/// Whether a step turns the device map from `before` to `after`.
pub open spec fn changes<'a, T, E>(
    step: MapStep<'a, T, E>,
    before: Map<Seq<char>, T>,
    after: Map<Seq<char>, T>,
) -> bool {
    match step {
        MapStep::Connection { phase, event, next, action } => handles(
            phase,
            event,
            before,
            after,
            next,
            action,
        ),
        MapStep::Removal { name } => after == before.remove(name),
    }
}

/// Whether a step enters an actor under the name, and which.
pub open spec fn entered<'a, T, E>(step: MapStep<'a, T, E>, name: Seq<char>) -> Option<T> {
    match step {
        MapStep::Connection {
            phase: ConnectionPhase::Serving { state: RequestState::Spawning { name: asked } },
            event: ConnectionEvent::Request(RequestEvent::Spawned(sender)),
            ..
        } => if asked@ == name {
            Some(sender)
        } else {
            None
        },
        _ => None,
    }
}

/// Whether a step takes the entry with the name out, if there is one.
pub open spec fn takes_out<'a, T, E>(step: MapStep<'a, T, E>, name: Seq<char>) -> bool {
    match step {
        MapStep::Connection {
            phase: ConnectionPhase::Decoding,
            event: ConnectionEvent::Decoded(Ok(ClientCommand::Disconnect { name: asked })),
            ..
        } => asked@ == name,
        MapStep::Removal { name: gone } => gone == name,
        _ => false,
    }
}

/// Whether the steps, of whichever connections and actors, turn the one device
/// map of a daemon from each of these to the one after it.
pub open spec fn is_shared_map<'a, T, E>(
    steps: Seq<MapStep<'a, T, E>>,
    maps: Seq<Map<Seq<char>, T>>,
) -> bool {
    &&& maps.len() == steps.len() + 1
    &&& forall|i: int| 0 <= i < steps.len() ==> changes(#[trigger] steps[i], maps[i], maps[i + 1])
}

proof fn lemma_entry_kept<'a, T, E>(
    steps: Seq<MapStep<'a, T, E>>,
    maps: Seq<Map<Seq<char>, T>>,
    name: Seq<char>,
    sender: T,
    from: int,
    n: int,
)
    requires
        is_shared_map(steps, maps),
        0 <= from < n <= steps.len(),
        entered(steps[from], name) == Some(sender),
        forall|i: int|
            from < i < n ==> entered(#[trigger] steps[i], name) is None && !takes_out(
                steps[i],
                name,
            ),
    ensures
        maps[n].contains_key(name),
        maps[n][name] == sender,
    decreases n,
{
    if n > from + 1 {
        lemma_entry_kept(steps, maps, name, sender, from, n - 1);
    }
    assert(changes(steps[n - 1], maps[n - 1], maps[n]));
}

/// All connections see one device map: where one has connected a device, and
/// nothing has replaced its actor or taken it out since, a request to record or
/// to disconnect the device reaches that actor, whichever connection it comes
/// over.
pub proof fn lemma_reached_from_any_connection<'a, T, E>(
    steps: Seq<MapStep<'a, T, E>>,
    maps: Seq<Map<Seq<char>, T>>,
    name: Seq<char>,
    sender: T,
    from: int,
    command: ClientCommand,
    next: ConnectionPhase,
    action: ConnectionAction<'a, T, E>,
)
    requires
        is_shared_map(steps, maps),
        0 <= from < steps.len() - 1,
        entered(steps[from], name) == Some(sender),
        forall|i: int|
            from < i < steps.len() - 1 ==> entered(#[trigger] steps[i], name) is None && !takes_out(
                steps[i],
                name,
            ),
        steps.last() == (MapStep::Connection {
            phase: ConnectionPhase::Decoding,
            event: ConnectionEvent::<T, E>::Decoded(Ok(command)),
            next,
            action,
        }),
    ensures
        (command matches ClientCommand::Record { name: asked } && asked@ == name) ==> (
        action matches ConnectionAction::Request(RequestAction::Record { actor, .. }) && *actor
            == sender),
        (command matches ClientCommand::Disconnect { name: asked } && asked@ == name) ==> (
        action matches ConnectionAction::Request(RequestAction::Dismiss { removed }) && removed
            == sender),
{
    let n = steps.len() - 1;
    lemma_entry_kept(steps, maps, name, sender, from, n);
    assert(changes(steps[n], maps[n], maps[n + 1]));
}

/// Where the device map starts without entries, it holds no actor but those that
/// connections have entered: the one under a name was entered under it.
pub proof fn lemma_only_connected_devices<'a, T, E>(
    steps: Seq<MapStep<'a, T, E>>,
    maps: Seq<Map<Seq<char>, T>>,
    name: Seq<char>,
    n: int,
)
    requires
        is_shared_map(steps, maps),
        maps[0] == Map::<Seq<char>, T>::empty(),
        0 <= n <= steps.len(),
        maps[n].contains_key(name),
    ensures
        exists|i: int|
            0 <= i < n && entered(#[trigger] steps[i], name) == Some(maps[n][name]),
    decreases n,
{
    if n > 0 {
        assert(changes(steps[n - 1], maps[n - 1], maps[n]));
        if entered(steps[n - 1], name) is None {
            lemma_only_connected_devices(steps, maps, name, n - 1);
        }
    }
}

/// A connection reads, decodes what it read, encodes the answer and writes what
/// was encoded, each when the one before it is done. None of this touches the
/// device map.
pub proof fn lemma_connection_steps<'a, T, E>(
    map: &'a mut DeviceMap<T>,
    phase: ConnectionPhase,
    event: ConnectionEvent<T, E>,
    next: ConnectionPhase,
    action: ConnectionAction<'a, T, E>,
)
    requires
        call_ensures(handle_client::<T, E>, (phase, event, map), (next, action)),
    ensures
        old(map).wf() ==> call_requires(handle_client::<T, E>, (phase, event, map)),
        phase is Created && event is Started <==> action is Read,
        action is Read ==> next is Reading,
        action matches ConnectionAction::Decode(bytes) ==> (event
            matches ConnectionEvent::Received(Ok(read)) && read == bytes) && phase is Reading
            && next is Decoding,
        phase is Reading && (event matches ConnectionEvent::Received(Ok(_))) ==> action is Decode,
        action matches ConnectionAction::Write(bytes) ==> (event
            matches ConnectionEvent::Encoded(Ok(encoded)) && encoded == bytes) && phase is Encoding
            && next is Writing,
        phase is Encoding && (event matches ConnectionEvent::Encoded(Ok(_))) ==> action is Write,
        action is Close <==> phase is Writing && (event matches ConnectionEvent::Written(Ok(_))),
        action is Close ==> next is Over,
        ({
            let failed = match (phase, event) {
                (ConnectionPhase::Reading, ConnectionEvent::Received(Err(e))) => Some(e),
                (ConnectionPhase::Decoding, ConnectionEvent::Decoded(Err(e))) => Some(e),
                (ConnectionPhase::Encoding, ConnectionEvent::Encoded(Err(e))) => Some(e),
                (ConnectionPhase::Writing, ConnectionEvent::Written(Err(e))) => Some(e),
                _ => None,
            };
            failed matches Some(e) ==> next is Over && (
            action matches ConnectionAction::Fail(RequestError::Operation(told)) && told == e)
        }),
        !(phase is Decoding && (event matches ConnectionEvent::Decoded(Ok(_)))) && !(
        phase is Serving && event is Request) ==> final(map)@ == old(map)@ && !(
        action is Request) && !(action is Encode),
        ({
            let awaited = match event {
                ConnectionEvent::Started => phase is Created,
                ConnectionEvent::Received(_) => phase is Reading,
                ConnectionEvent::Decoded(_) => phase is Decoding,
                ConnectionEvent::Request(_) => phase is Serving,
                ConnectionEvent::Encoded(_) => phase is Encoding,
                ConnectionEvent::Written(_) => phase is Writing,
            };
            &&& action is Ignore <==> !awaited
            &&& !awaited ==> next == phase
        }),
{
}

/// A connection does for a command that it decoded what the request begins with:
/// an answer is encoded as it is, a failure ends the connection, and all else that
/// the request asks for is asked for as it is, while the request goes on.
pub proof fn lemma_connection_begins<'a, T, E>(
    map: &'a mut DeviceMap<T>,
    command: ClientCommand,
    next: ConnectionPhase,
    action: ConnectionAction<'a, T, E>,
)
    requires
        call_ensures(
            handle_client::<T, E>,
            (ConnectionPhase::Decoding, ConnectionEvent::<T, E>::Decoded(Ok(command)), map),
            (next, action),
        ),
    ensures
        match action {
            ConnectionAction::Request(asked) => {
                &&& !(asked is Answer) && !(asked is Fail)
                &&& next matches ConnectionPhase::Serving { state }
                &&& crate::request::begins(command, old(map)@, final(map)@, state, asked)
            },
            ConnectionAction::Encode(response) => {
                &&& next is Encoding
                &&& crate::request::begins(
                    command,
                    old(map)@,
                    final(map)@,
                    RequestState::Over,
                    RequestAction::<'a, T, E>::Answer(response),
                )
            },
            ConnectionAction::Fail(error) => {
                &&& next is Over
                &&& crate::request::begins(
                    command,
                    old(map)@,
                    final(map)@,
                    RequestState::Over,
                    RequestAction::<'a, T, E>::Fail(error),
                )
            },
            _ => false,
        },
{
}

/// A connection takes its request on as the request goes: an answer is encoded as
/// it is, a failure ends the connection, and all else that the request asks for is
/// asked for as it is, while the request goes on.
pub proof fn lemma_connection_advances<'a, T, E>(
    map: &'a mut DeviceMap<T>,
    state: RequestState,
    event: RequestEvent<T, E>,
    next: ConnectionPhase,
    action: ConnectionAction<'a, T, E>,
)
    requires
        call_ensures(
            handle_client::<T, E>,
            (
                ConnectionPhase::Serving { state },
                ConnectionEvent::<T, E>::Request(event),
                map,
            ),
            (next, action),
        ),
    ensures
        match action {
            ConnectionAction::Request(asked) => {
                &&& !(asked is Answer) && !(asked is Fail)
                &&& next matches ConnectionPhase::Serving { state: later }
                &&& crate::request::advances(state, event, old(map)@, final(map)@, later, asked)
            },
            ConnectionAction::Encode(response) => {
                &&& next is Encoding
                &&& crate::request::advances(
                    state,
                    event,
                    old(map)@,
                    final(map)@,
                    RequestState::Over,
                    RequestAction::<'a, T, E>::Answer(response),
                )
            },
            ConnectionAction::Fail(error) => {
                &&& next is Over
                &&& crate::request::advances(
                    state,
                    event,
                    old(map)@,
                    final(map)@,
                    RequestState::Over,
                    RequestAction::<'a, T, E>::Fail(error),
                )
            },
            _ => false,
        },
{
}

/// What a client is answered is what it asked for: the names that were seen, the
/// statuses that were told, success, or that the device is not connected.
pub proof fn lemma_connection_answers<'a, T, E>(
    map: &'a mut DeviceMap<T>,
    state: RequestState,
    event: RequestEvent<T, E>,
    next: ConnectionPhase,
    response: DaemonResponse,
)
    requires
        call_ensures(
            handle_client::<T, E>,
            (
                ConnectionPhase::Serving { state },
                ConnectionEvent::<T, E>::Request(event),
                map,
            ),
            (next, ConnectionAction::<'a, T, E>::Encode(response)),
        ),
    ensures
        match event {
            RequestEvent::Scanned(Ok(names)) => response == DaemonResponse::Devices(names),
            RequestEvent::Statuses(statuses) => response == DaemonResponse::Statuses(statuses),
            RequestEvent::Spawned(_) => response is Success,
            RequestEvent::Sent(_) => response is Success,
            _ => false,
        },
{
}

} // verus!
