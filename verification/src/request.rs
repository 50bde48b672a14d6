//! What the daemon does for one request of a client.
//!
//! A request is a state machine. Whoever drives it performs the action that a
//! step hands out, and hands back what came of it as the next event.

use crate::device_map::DeviceMap;
use crate::protocol::{
    ClientCommand, DaemonResponse, DeviceStatus, COMMAND_QUEUE, DEVICE_NOT_CONNECTED,
    DEVICE_NOT_FOUND,
};
use vstd::prelude::*;

verus! {

/// What a request is waiting for.
#[derive(Debug, PartialEq, Eq)]
pub enum RequestState {
    Scanning,
    AskingStatus,
    Listing { name: String },
    Connecting { name: String, index: usize },
    Spawning { name: String },
    Dismissing,
    Recording,
    Over,
}

/// What happened. `T` is the sending end of an actor's command channel, `E` the
/// error of an operation that failed.
#[derive(Debug, PartialEq, Eq)]
pub enum RequestEvent<T, E> {
    /// The outcome of `Scan`: the names of the devices that were seen.
    Scanned(Result<Vec<String>, E>),
    /// The outcome of `AskStatus`: what the actors answered.
    Statuses(Vec<DeviceStatus>),
    /// The outcome of `List`: the names of the devices.
    Listed(Result<Vec<String>, E>),
    /// The outcome of `Connect`.
    Connected(Result<(), E>),
    /// The actor was spawned.
    Spawned(T),
    /// The outcome of `Dismiss` or `Record`.
    Sent(Result<(), E>),
}

/// Why a request failed.
#[derive(Debug, PartialEq, Eq)]
pub enum RequestError<E> {
    /// No device has the name.
    DeviceNotFound,
    /// An operation failed.
    Operation(E),
}

/// What the driver has to do.
#[derive(Debug, PartialEq, Eq)]
pub enum RequestAction<'a, T, E> {
    /// Look for devices for this long and say which were seen.
    Scan { timeout_ms: u64 },
    /// Go through the steps of `ask_actors` with the entries of the device map.
    AskStatus,
    /// Say which devices the adapter knows.
    List,
    /// Connect the device that was listed at this position.
    Connect { index: usize },
    /// Spawn an actor for the device that was listed at this position, with a
    /// command channel that holds so many commands.
    Spawn { index: usize, queue: usize },
    /// Send the actor `Shutdown`.
    Dismiss { removed: T },
    /// Send the actor `StartRecording` with this name.
    Record { actor: &'a T, lsl_stream_name: String },
    /// Send the client this answer. The request is over.
    Answer(DaemonResponse),
    /// Send the client nothing. The request is over.
    Fail(RequestError<E>),
    /// The event was not what the request waits for; it still waits.
    Ignore,
}

/// What a failed request says of itself: the text where no device has the name,
/// and nothing where an operation failed, whose error speaks for itself.
pub fn error_text<E>(error: &RequestError<E>) -> (text: Option<String>)
    ensures
        match *error {
            RequestError::DeviceNotFound => text is Some && text->0@ == DEVICE_NOT_FOUND@,
            RequestError::Operation(_) => text is None,
        },
{
    match error {
        RequestError::DeviceNotFound => Some(DEVICE_NOT_FOUND.to_string()),
        RequestError::Operation(_) => None,
    }
}

/// Whether `index` is the first position at which `name` stands.
pub open spec fn is_first_name(listed: Seq<String>, name: Seq<char>, index: int) -> bool {
    &&& 0 <= index < listed.len()
    &&& listed[index]@ == name
    &&& forall|i: int| 0 <= i < index ==> (#[trigger] listed[i])@ != name
}

/// Whether `name` stands nowhere.
pub open spec fn is_absent(listed: Seq<String>, name: Seq<char>) -> bool {
    forall|i: int| 0 <= i < listed.len() ==> (#[trigger] listed[i])@ != name
}

/// The first position at which `name` stands.
pub fn find_name(listed: &Vec<String>, name: &String) -> (found: Option<usize>)
    ensures
        match found {
            Some(index) => is_first_name(listed@, name@, index as int),
            None => is_absent(listed@, name@),
        },
{
    let mut i: usize = 0;
    while i < listed.len()
        invariant
            i <= listed@.len(),
            forall|j: int| 0 <= j < i ==> (#[trigger] listed@[j])@ != name@,
        decreases listed@.len() - i,
    {
        if listed[i] == *name {
            return Some(i);
        }
        i = i + 1;
    }
    None
}

/// The answer to a request for a device that has no actor.
pub open spec fn is_refusal<'a, T, E>(action: RequestAction<'a, T, E>) -> bool {
    action matches RequestAction::Answer(DaemonResponse::Error(text)) && text@
        == DEVICE_NOT_CONNECTED@
}

/// Whether a request for `command` begins in `state` and with `action`, and turns
/// the device map from `before` to `after`.
pub open spec fn begins<'a, T, E>(
    command: ClientCommand,
    before: Map<Seq<char>, T>,
    after: Map<Seq<char>, T>,
    state: RequestState,
    action: RequestAction<'a, T, E>,
) -> bool {
    match command {
        ClientCommand::Scan { timeout_ms } => {
            &&& after == before
            &&& state == RequestState::Scanning
            &&& action matches RequestAction::Scan { timeout_ms: asked } && asked == timeout_ms
        },
        ClientCommand::Status => {
            &&& after == before
            &&& state == RequestState::AskingStatus
            &&& action is AskStatus
        },
        ClientCommand::Connect { name } => {
            &&& after == before
            &&& state == RequestState::Listing { name }
            &&& action is List
        },
        ClientCommand::Disconnect { name } => if before.contains_key(name@) {
            &&& after == before.remove(name@)
            &&& state == RequestState::Dismissing
            &&& action matches RequestAction::Dismiss { removed } && removed == before[name@]
        } else {
            &&& after == before
            &&& state == RequestState::Over
            &&& is_refusal(action)
        },
        ClientCommand::Record { name } => if before.contains_key(name@) {
            &&& after == before
            &&& state == RequestState::Recording
            &&& action matches RequestAction::Record { actor, lsl_stream_name }
            &&& *actor == before[name@]
            &&& lsl_stream_name == name
        } else {
            &&& after == before
            &&& state == RequestState::Over
            &&& is_refusal(action)
        },
    }
}

fn refusal<'a, T, E>() -> (action: RequestAction<'a, T, E>)
    ensures
        is_refusal(action),
{
    RequestAction::Answer(DaemonResponse::Error(DEVICE_NOT_CONNECTED.to_string()))
}

/// Begins a request.
pub fn begin<'a, T, E>(command: ClientCommand, map: &'a mut DeviceMap<T>) -> (result: (
    RequestState,
    RequestAction<'a, T, E>,
))
    requires
        old(map).wf(),
    ensures
        final(map).wf(),
        begins(command, old(map)@, final(map)@, result.0, result.1),
{
    match command {
        ClientCommand::Scan { timeout_ms } => (
            RequestState::Scanning,
            RequestAction::Scan { timeout_ms },
        ),
        ClientCommand::Status => (RequestState::AskingStatus, RequestAction::AskStatus),
        ClientCommand::Connect { name } => (RequestState::Listing { name }, RequestAction::List),
        ClientCommand::Disconnect { name } => {
            match map.remove(&name) {
                Some(removed) => (RequestState::Dismissing, RequestAction::Dismiss { removed }),
                None => {
                    assert(old(map)@.remove(name@) =~= old(map)@);
                    (RequestState::Over, refusal())
                },
            }
        },
        ClientCommand::Record { name } => {
            match map.get(&name) {
                Some(actor) => (
                    RequestState::Recording,
                    RequestAction::Record { actor, lsl_stream_name: name },
                ),
                None => (RequestState::Over, refusal()),
            }
        },
    }
}

/// Whether a request that is in `state` goes over to `next` and asks for `action`
/// when `event` happens, and turns the device map from `before` to `after`.
pub open spec fn advances<'a, T, E>(
    state: RequestState,
    event: RequestEvent<T, E>,
    before: Map<Seq<char>, T>,
    after: Map<Seq<char>, T>,
    next: RequestState,
    action: RequestAction<'a, T, E>,
) -> bool {
    match (state, event) {
        (RequestState::Scanning, RequestEvent::Scanned(Ok(names))) => {
            &&& after == before
            &&& answers(next, action, DaemonResponse::Devices(names))
        },
        (RequestState::Scanning, RequestEvent::Scanned(Err(e))) => {
            &&& after == before
            &&& fails(next, action, RequestError::Operation(e))
        },
        (RequestState::AskingStatus, RequestEvent::Statuses(statuses)) => {
            &&& after == before
            &&& answers(next, action, DaemonResponse::Statuses(statuses))
        },
        (RequestState::Listing { name }, RequestEvent::Listed(Ok(names))) => {
            &&& after == before
            &&& if is_absent(names@, name@) {
                fails(next, action, RequestError::DeviceNotFound)
            } else {
                &&& next matches RequestState::Connecting { name: kept, index }
                &&& kept == name
                &&& is_first_name(names@, name@, index as int)
                &&& action matches RequestAction::Connect { index: asked }
                &&& asked == index
            }
        },
        (RequestState::Listing { .. }, RequestEvent::Listed(Err(e))) => {
            &&& after == before
            &&& fails(next, action, RequestError::Operation(e))
        },
        (RequestState::Connecting { name, index }, RequestEvent::Connected(Ok(_))) => {
            &&& after == before
            &&& next == RequestState::Spawning { name }
            &&& action matches RequestAction::Spawn { index: asked, queue }
            &&& asked == index
            &&& queue == COMMAND_QUEUE
        },
        (RequestState::Connecting { .. }, RequestEvent::Connected(Err(e))) => {
            &&& after == before
            &&& fails(next, action, RequestError::Operation(e))
        },
        (RequestState::Spawning { name }, RequestEvent::Spawned(sender)) => {
            &&& after == before.insert(name@, sender)
            &&& answers(next, action, DaemonResponse::Success)
        },
        (RequestState::Dismissing, RequestEvent::Sent(_)) => {
            &&& after == before
            &&& answers(next, action, DaemonResponse::Success)
        },
        (RequestState::Recording, RequestEvent::Sent(Ok(_))) => {
            &&& after == before
            &&& answers(next, action, DaemonResponse::Success)
        },
        (RequestState::Recording, RequestEvent::Sent(Err(e))) => {
            &&& after == before
            &&& fails(next, action, RequestError::Operation(e))
        },
        _ => after == before && next == state && action is Ignore,
    }
}

/// The request is over with an answer.
pub open spec fn answers<'a, T, E>(
    next: RequestState,
    action: RequestAction<'a, T, E>,
    response: DaemonResponse,
) -> bool {
    next == RequestState::Over && (action matches RequestAction::Answer(given) && given == response)
}

/// The request is over with an error.
pub open spec fn fails<'a, T, E>(
    next: RequestState,
    action: RequestAction<'a, T, E>,
    error: RequestError<E>,
) -> bool {
    next == RequestState::Over && (action matches RequestAction::Fail(given) && given == error)
}

/// Takes a request on when `event` happens.
pub fn advance<'a, T, E>(
    state: RequestState,
    event: RequestEvent<T, E>,
    map: &mut DeviceMap<T>,
) -> (result: (RequestState, RequestAction<'a, T, E>))
    requires
        old(map).wf(),
    ensures
        final(map).wf(),
        advances(state, event, old(map)@, final(map)@, result.0, result.1),
{
    match (state, event) {
        (RequestState::Scanning, RequestEvent::Scanned(Ok(names))) => (
            RequestState::Over,
            RequestAction::Answer(DaemonResponse::Devices(names)),
        ),
        (RequestState::Scanning, RequestEvent::Scanned(Err(e))) => (
            RequestState::Over,
            RequestAction::Fail(RequestError::Operation(e)),
        ),
        (RequestState::AskingStatus, RequestEvent::Statuses(statuses)) => (
            RequestState::Over,
            RequestAction::Answer(DaemonResponse::Statuses(statuses)),
        ),
        (RequestState::Listing { name }, RequestEvent::Listed(Ok(names))) => {
            match find_name(&names, &name) {
                Some(index) => (
                    RequestState::Connecting { name, index },
                    RequestAction::Connect { index },
                ),
                None => (RequestState::Over, RequestAction::Fail(RequestError::DeviceNotFound)),
            }
        },
        (RequestState::Listing { .. }, RequestEvent::Listed(Err(e))) => (
            RequestState::Over,
            RequestAction::Fail(RequestError::Operation(e)),
        ),
        (RequestState::Connecting { name, index }, RequestEvent::Connected(Ok(_))) => (
            RequestState::Spawning { name },
            RequestAction::Spawn { index, queue: COMMAND_QUEUE },
        ),
        (RequestState::Connecting { .. }, RequestEvent::Connected(Err(e))) => (
            RequestState::Over,
            RequestAction::Fail(RequestError::Operation(e)),
        ),
        (RequestState::Spawning { name }, RequestEvent::Spawned(sender)) => {
            map.insert(name, sender);
            (RequestState::Over, RequestAction::Answer(DaemonResponse::Success))
        },
        (RequestState::Dismissing, RequestEvent::Sent(_)) => (
            RequestState::Over,
            RequestAction::Answer(DaemonResponse::Success),
        ),
        (RequestState::Recording, RequestEvent::Sent(Ok(_))) => (
            RequestState::Over,
            RequestAction::Answer(DaemonResponse::Success),
        ),
        (RequestState::Recording, RequestEvent::Sent(Err(e))) => (
            RequestState::Over,
            RequestAction::Fail(RequestError::Operation(e)),
        ),
        (state, _) => (state, RequestAction::Ignore),
    }
}

/// A request for a device that has no actor is refused, and changes nothing.
pub proof fn lemma_refusal<'a, T, E>(
    command: ClientCommand,
    before: Map<Seq<char>, T>,
    after: Map<Seq<char>, T>,
    state: RequestState,
    action: RequestAction<'a, T, E>,
)
    requires
        begins(command, before, after, state, action),
    ensures
        is_refusal(action) <==> (match command {
            ClientCommand::Disconnect { name } => !before.contains_key(name@),
            ClientCommand::Record { name } => !before.contains_key(name@),
            _ => false,
        }),
        is_refusal(action) ==> after == before && state is Over,
{
}

/// Beginning a request leaves the actors of all devices but the one that it
/// names as they are, and takes out none but where it asks to disconnect.
pub proof fn lemma_beginning_leaves_others<'a, T, E>(
    command: ClientCommand,
    before: Map<Seq<char>, T>,
    after: Map<Seq<char>, T>,
    state: RequestState,
    action: RequestAction<'a, T, E>,
    other: Seq<char>,
)
    requires
        begins(command, before, after, state, action),
        command matches ClientCommand::Disconnect { name } ==> name@ != other,
    ensures
        after.contains_key(other) == before.contains_key(other),
        after.contains_key(other) ==> after[other] == before[other],
{
}

/// Taking a request on leaves the actors of all devices as they are, but for the
/// one that an actor was spawned for.
pub proof fn lemma_advancing_leaves_others<'a, T, E>(
    state: RequestState,
    event: RequestEvent<T, E>,
    before: Map<Seq<char>, T>,
    after: Map<Seq<char>, T>,
    next: RequestState,
    action: RequestAction<'a, T, E>,
    other: Seq<char>,
)
    requires
        advances(state, event, before, after, next, action),
        state matches RequestState::Spawning { name } ==> name@ != other,
    ensures
        after.contains_key(other) == before.contains_key(other),
        after.contains_key(other) ==> after[other] == before[other],
{
}

/// A request gets one answer or fails once: it is over exactly when the step
/// answers or fails, and nothing happens to one that is over.
pub proof fn lemma_one_answer<'a, T, E>(
    state: RequestState,
    event: RequestEvent<T, E>,
    before: Map<Seq<char>, T>,
    after: Map<Seq<char>, T>,
    next: RequestState,
    action: RequestAction<'a, T, E>,
)
    requires
        advances(state, event, before, after, next, action),
    ensures
        action is Answer || action is Fail <==> next is Over && !(state is Over),
        state is Over ==> after == before && next is Over && action is Ignore,
{
}

/// Connecting a device that is listed, where all goes well, enters its actor
/// under its name and is answered with success. Until then the device map stays
/// as it is.
pub proof fn lemma_connecting<'a, T, E>(
    name: String,
    names: Vec<String>,
    sender: T,
    maps: Seq<Map<Seq<char>, T>>,
    states: Seq<RequestState>,
    actions: Seq<RequestAction<'a, T, E>>,
)
    requires
        !is_absent(names@, name@),
        maps.len() == 5,
        states.len() == 4,
        actions.len() == 4,
        begins(ClientCommand::Connect { name }, maps[0], maps[1], states[0], actions[0]),
        advances(
            states[0],
            RequestEvent::<T, E>::Listed(Ok(names)),
            maps[1],
            maps[2],
            states[1],
            actions[1],
        ),
        advances(
            states[1],
            RequestEvent::<T, E>::Connected(Ok(())),
            maps[2],
            maps[3],
            states[2],
            actions[2],
        ),
        advances(
            states[2],
            RequestEvent::<T, E>::Spawned(sender),
            maps[3],
            maps[4],
            states[3],
            actions[3],
        ),
    ensures
        maps[3] == maps[0],
        maps[4] == maps[0].insert(name@, sender),
        actions[0] is List,
        actions[1] matches RequestAction::Connect { index } && is_first_name(
            names@,
            name@,
            index as int,
        ) && (actions[2] matches RequestAction::Spawn { index: spawned, .. } && spawned == index),
        answers(states[3], actions[3], DaemonResponse::Success),
{
}

/// A device that is connected can be recorded and disconnected: neither request
/// is refused, and both reach the actor that was entered. After it was
/// disconnected, both are refused.
pub proof fn lemma_connected_until_disconnected<'a, T, E>(
    name: String,
    sender: T,
    before: Map<Seq<char>, T>,
    after_record: Map<Seq<char>, T>,
    after_disconnect: Map<Seq<char>, T>,
    after_again: Map<Seq<char>, T>,
    states: Seq<RequestState>,
    actions: Seq<RequestAction<'a, T, E>>,
)
    requires
        states.len() == 3,
        actions.len() == 3,
        begins(
            ClientCommand::Record { name },
            before.insert(name@, sender),
            after_record,
            states[0],
            actions[0],
        ),
        begins(
            ClientCommand::Disconnect { name },
            after_record,
            after_disconnect,
            states[1],
            actions[1],
        ),
        begins(
            ClientCommand::Record { name },
            after_disconnect,
            after_again,
            states[2],
            actions[2],
        ),
    ensures
        actions[0] matches RequestAction::Record { actor, lsl_stream_name } && *actor == sender
            && lsl_stream_name == name,
        actions[1] matches RequestAction::Dismiss { removed } && removed == sender,
        after_again == before.remove(name@),
        is_refusal(actions[2]),
{
    assert(before.insert(name@, sender).remove(name@) =~= before.remove(name@));
}

/// A name that a scan was answered with can be connected to, as long as the
/// devices that are known have not changed.
pub proof fn lemma_scanned_can_be_connected<'a, T, E>(
    names: Vec<String>,
    chosen: int,
    map: Map<Seq<char>, T>,
    scanned: Map<Seq<char>, T>,
    listed: Map<Seq<char>, T>,
    states: Seq<RequestState>,
    actions: Seq<RequestAction<'a, T, E>>,
)
    requires
        states.len() == 2,
        actions.len() == 2,
        advances(
            RequestState::Scanning,
            RequestEvent::<T, E>::Scanned(Ok(names)),
            map,
            scanned,
            states[0],
            actions[0],
        ),
        0 <= chosen < names@.len(),
        advances(
            RequestState::Listing { name: names@[chosen] },
            RequestEvent::<T, E>::Listed(Ok(names)),
            scanned,
            listed,
            states[1],
            actions[1],
        ),
    ensures
        actions[0] matches RequestAction::Answer(DaemonResponse::Devices(told)) && told == names,
        actions[1] matches RequestAction::Connect { index } && names@[index as int]@
            == names@[chosen]@,
{
}

/// A whole request: the device map before it began and after each step, the state
/// and the action after each step, and the events between.
pub open spec fn is_request<'a, T, E>(
    command: ClientCommand,
    events: Seq<RequestEvent<T, E>>,
    maps: Seq<Map<Seq<char>, T>>,
    states: Seq<RequestState>,
    actions: Seq<RequestAction<'a, T, E>>,
) -> bool {
    &&& maps.len() == events.len() + 2
    &&& states.len() == events.len() + 1
    &&& actions.len() == events.len() + 1
    &&& begins(command, maps[0], maps[1], states[0], actions[0])
    &&& forall|i: int|
        0 <= i < events.len() ==> advances(
            states[i],
            #[trigger] events[i],
            maps[i + 1],
            maps[i + 2],
            states[i + 1],
            actions[i + 1],
        )
}

proof fn lemma_map_kept<'a, T, E>(
    command: ClientCommand,
    events: Seq<RequestEvent<T, E>>,
    maps: Seq<Map<Seq<char>, T>>,
    states: Seq<RequestState>,
    actions: Seq<RequestAction<'a, T, E>>,
    n: int,
)
    requires
        is_request(command, events, maps, states, actions),
        0 <= n <= events.len(),
    ensures
        states[n] is Over || states[n] is Dismissing || maps[n + 1] == maps[0],
        actions[n] is Fail ==> maps[n + 1] == maps[0],
    decreases n,
{
    if n > 0 {
        lemma_map_kept(command, events, maps, states, actions, n - 1);
        assert(advances(
            states[n - 1],
            events[n - 1],
            maps[n],
            maps[n + 1],
            states[n],
            actions[n],
        ));
    }
}

/// A request that fails leaves the device map as it was before the request.
pub proof fn lemma_failure_keeps_map<'a, T, E>(
    command: ClientCommand,
    events: Seq<RequestEvent<T, E>>,
    maps: Seq<Map<Seq<char>, T>>,
    states: Seq<RequestState>,
    actions: Seq<RequestAction<'a, T, E>>,
)
    requires
        is_request(command, events, maps, states, actions),
        actions.last() is Fail,
    ensures
        maps.last() == maps[0],
{
    lemma_map_kept(command, events, maps, states, actions, events.len() as int);
}

/// A name is found exactly where it is listed, at the first place where it is.
pub proof fn lemma_find_name(listed: &Vec<String>, name: &String, found: Option<usize>)
    requires
        call_ensures(find_name, (listed, name), found),
    ensures
        call_requires(find_name, (listed, name)),
        found is None ==> forall|i: int| 0 <= i < listed@.len() ==> (#[trigger] listed@[i])@ != name@,
        found matches Some(index) ==> {
            &&& index < listed@.len()
            &&& listed@[index as int]@ == name@
            &&& forall|i: int| 0 <= i < index ==> (#[trigger] listed@[i])@ != name@
        },
{
}

/// A request that failed says "Device not found" where no device has the name,
/// and leaves it to the error to speak where an operation failed.
pub proof fn lemma_error_text<E>(error: &RequestError<E>, text: Option<String>)
    requires
        call_ensures(error_text::<E>, (error,), text),
    ensures
        call_requires(error_text::<E>, (error,)),
        error is DeviceNotFound ==> text is Some && text->0@ == "Device not found"@,
        error is Operation ==> text is None,
{
}

/// A request to scan looks for devices for just as long as it asks, and is
/// answered with just the names that were seen. The device map stays as it is.
pub proof fn lemma_scan_request<'a, T, E>(
    map: &'a mut DeviceMap<T>,
    later: &mut DeviceMap<T>,
    timeout_ms: u64,
    state: RequestState,
    asked: RequestAction<'a, T, E>,
    seen: Result<Vec<String>, E>,
    next: RequestState,
    answer: RequestAction<'a, T, E>,
)
    requires
        call_ensures(begin::<T, E>, (ClientCommand::Scan { timeout_ms }, map), (state, asked)),
        call_ensures(
            advance::<T, E>,
            (state, RequestEvent::<T, E>::Scanned(seen), later),
            (next, answer),
        ),
    ensures
        old(map).wf() ==> call_requires(
            begin::<T, E>,
            (ClientCommand::Scan { timeout_ms }, map),
        ),
        asked matches RequestAction::Scan { timeout_ms: ms } && ms == timeout_ms,
        match seen {
            Ok(names) => answer matches RequestAction::Answer(DaemonResponse::Devices(told)) && told
                == names,
            Err(e) => answer matches RequestAction::Fail(RequestError::Operation(told)) && told
                == e,
        },
        next is Over,
        final(map)@ == old(map)@,
        final(later)@ == old(later)@,
{
}

/// A request for the status has the actors asked, and is answered with just what
/// they said. The device map stays as it is.
pub proof fn lemma_whole_status_request<'a, T, E>(
    map: &'a mut DeviceMap<T>,
    later: &mut DeviceMap<T>,
    state: RequestState,
    asked: RequestAction<'a, T, E>,
    statuses: Vec<DeviceStatus>,
    next: RequestState,
    answer: RequestAction<'a, T, E>,
)
    requires
        call_ensures(begin::<T, E>, (ClientCommand::Status, map), (state, asked)),
        call_ensures(
            advance::<T, E>,
            (state, RequestEvent::<T, E>::Statuses(statuses), later),
            (next, answer),
        ),
    ensures
        old(map).wf() ==> call_requires(begin::<T, E>, (ClientCommand::Status, map)),
        asked is AskStatus,
        answer matches RequestAction::Answer(DaemonResponse::Statuses(told)) && told == statuses,
        next is Over,
        final(map)@ == old(map)@,
        final(later)@ == old(later)@,
{
}

/// A request to disconnect a device that has an actor takes that actor out, sends
/// it off, and is answered with success, whether the actor could be told or not.
/// One for a device that has none is answered that it is not connected.
pub proof fn lemma_disconnect_request<'a, T, E>(
    map: &'a mut DeviceMap<T>,
    later: &mut DeviceMap<T>,
    name: String,
    state: RequestState,
    asked: RequestAction<'a, T, E>,
    sent: Result<(), E>,
    next: RequestState,
    answer: RequestAction<'a, T, E>,
)
    requires
        call_ensures(begin::<T, E>, (ClientCommand::Disconnect { name }, map), (state, asked)),
        call_ensures(
            advance::<T, E>,
            (state, RequestEvent::<T, E>::Sent(sent), later),
            (next, answer),
        ),
    ensures
        old(map).wf() ==> call_requires(
            begin::<T, E>,
            (ClientCommand::Disconnect { name }, map),
        ),
        old(map)@.contains_key(name@) ==> {
            &&& asked matches RequestAction::Dismiss { removed }
            &&& removed == old(map)@[name@]
            &&& answer matches RequestAction::Answer(DaemonResponse::Success)
        },
        !old(map)@.contains_key(name@) ==> {
            &&& asked matches RequestAction::Answer(DaemonResponse::Error(text))
            &&& text@ == "Device not connected"@
            &&& state is Over
            &&& answer is Ignore
        },
        next is Over,
        final(map)@ == old(map)@.remove(name@),
        final(later)@ == old(later)@,
{
    assert(!old(map)@.contains_key(name@) ==> old(map)@.remove(name@) =~= old(map)@);
}

/// A request to record a device that has an actor tells that actor to record under
/// the device's name, and is answered with success where the actor could be told.
/// One for a device that has none is answered that it is not connected. The device
/// map stays as it is.
pub proof fn lemma_record_request<'a, T, E>(
    map: &'a mut DeviceMap<T>,
    later: &mut DeviceMap<T>,
    name: String,
    state: RequestState,
    asked: RequestAction<'a, T, E>,
    sent: Result<(), E>,
    next: RequestState,
    answer: RequestAction<'a, T, E>,
)
    requires
        call_ensures(begin::<T, E>, (ClientCommand::Record { name }, map), (state, asked)),
        call_ensures(
            advance::<T, E>,
            (state, RequestEvent::<T, E>::Sent(sent), later),
            (next, answer),
        ),
    ensures
        old(map).wf() ==> call_requires(
            begin::<T, E>,
            (ClientCommand::Record { name }, map),
        ),
        old(map)@.contains_key(name@) ==> {
            &&& asked matches RequestAction::Record { actor, lsl_stream_name }
            &&& *actor == old(map)@[name@]
            &&& lsl_stream_name@ == name@
            &&& match sent {
                Ok(_) => answer matches RequestAction::Answer(DaemonResponse::Success),
                Err(e) => answer matches RequestAction::Fail(RequestError::Operation(told))
                    && told == e,
            }
        },
        !old(map)@.contains_key(name@) ==> {
            &&& asked matches RequestAction::Answer(DaemonResponse::Error(text))
            &&& text@ == "Device not connected"@
            &&& state is Over
            &&& answer is Ignore
        },
        next is Over,
        final(map)@ == old(map)@,
        final(later)@ == old(later)@,
{
}

/// A request to connect a device lists the devices and connects the first of
/// those with the name. Where there is none, it fails for that reason.
pub proof fn lemma_connect_request_looks_up<'a, T, E>(
    map: &'a mut DeviceMap<T>,
    later: &mut DeviceMap<T>,
    name: String,
    state: RequestState,
    asked: RequestAction<'a, T, E>,
    listed: Vec<String>,
    next: RequestState,
    action: RequestAction<'a, T, E>,
    i: int,
)
    requires
        call_ensures(begin::<T, E>, (ClientCommand::Connect { name }, map), (state, asked)),
        call_ensures(
            advance::<T, E>,
            (state, RequestEvent::<T, E>::Listed(Ok(listed)), later),
            (next, action),
        ),
    ensures
        old(map).wf() ==> call_requires(
            begin::<T, E>,
            (ClientCommand::Connect { name }, map),
        ),
        asked is List,
        0 <= i < listed@.len() && listed@[i]@ == name@ ==> {
            &&& action matches RequestAction::Connect { index }
            &&& index <= i
            &&& listed@[index as int]@ == name@
        },
        (forall|j: int| 0 <= j < listed@.len() ==> (#[trigger] listed@[j])@ != name@) ==> {
            &&& action matches RequestAction::Fail(RequestError::DeviceNotFound)
            &&& next is Over
        },
        final(map)@ == old(map)@,
        final(later)@ == old(later)@,
{
}

/// Once a device was looked up, it is connected, then an actor is spawned for the
/// very same device with room for thirty-two commands, then that actor is entered
/// under the name that was asked for, and the answer is success. Where connecting
/// fails, the request fails with that error and enters nothing.
pub proof fn lemma_connect_request_goes_on<'a, T, E>(
    maps: (&mut DeviceMap<T>, &mut DeviceMap<T>, &mut DeviceMap<T>),
    name: String,
    listed: Vec<String>,
    connected: Result<(), E>,
    sender: T,
    states: (RequestState, RequestState, RequestState),
    actions: (RequestAction<'a, T, E>, RequestAction<'a, T, E>, RequestAction<'a, T, E>),
)
    requires
        call_ensures(
            advance::<T, E>,
            (
                RequestState::Listing { name },
                RequestEvent::<T, E>::Listed(Ok(listed)),
                maps.0,
            ),
            (states.0, actions.0),
        ),
        actions.0 is Connect,
        call_ensures(
            advance::<T, E>,
            (states.0, RequestEvent::<T, E>::Connected(connected), maps.1),
            (states.1, actions.1),
        ),
        call_ensures(
            advance::<T, E>,
            (states.1, RequestEvent::<T, E>::Spawned(sender), maps.2),
            (states.2, actions.2),
        ),
    ensures
        connected is Ok ==> {
            &&& actions.0 matches RequestAction::Connect { index }
            &&& actions.1 matches RequestAction::Spawn { index: spawned, queue }
            &&& spawned == index
            &&& queue == 32
            &&& actions.2 matches RequestAction::Answer(DaemonResponse::Success)
            &&& states.2 is Over
            &&& final(maps.2)@ == old(maps.2)@.insert(name@, sender)
        },
        connected matches Err(e) ==> {
            &&& actions.1 matches RequestAction::Fail(RequestError::Operation(told))
            &&& told == e
            &&& states.1 is Over
            &&& actions.2 is Ignore
            &&& final(maps.2)@ == old(maps.2)@
        },
        final(maps.1)@ == old(maps.1)@,
{
}

/// A request takes in only what it waits for; anything else changes neither it nor
/// the device map.
pub proof fn lemma_request_waits<'a, T, E>(
    map: &mut DeviceMap<T>,
    state: RequestState,
    event: RequestEvent<T, E>,
    next: RequestState,
    action: RequestAction<'a, T, E>,
)
    requires
        call_ensures(advance::<T, E>, (state, event, map), (next, action)),
    ensures
        old(map).wf() ==> call_requires(advance::<T, E>, (state, event, map)) && final(map).wf(),
        ({
            let awaited = match event {
                RequestEvent::Scanned(_) => state is Scanning,
                RequestEvent::Statuses(_) => state is AskingStatus,
                RequestEvent::Listed(_) => state is Listing,
                RequestEvent::Connected(_) => state is Connecting,
                RequestEvent::Spawned(_) => state is Spawning,
                RequestEvent::Sent(_) => state is Dismissing || state is Recording,
            };
            &&& action is Ignore <==> !awaited
            &&& !awaited ==> next == state && final(map)@ == old(map)@
        }),
        event matches RequestEvent::Listed(Err(e)) ==> action is Ignore || (
        action matches RequestAction::Fail(RequestError::Operation(told)) && told == e && next
            is Over && final(map)@ == old(map)@),
{
}

/// Over a whole request the client is told that the device is not connected only
/// where the request names one that had no actor when the request began, and then
/// right away. No other error is ever answered.
pub proof fn lemma_refused_only_where_not_connected<'a, T, E>(
    command: ClientCommand,
    events: Seq<RequestEvent<T, E>>,
    maps: Seq<Map<Seq<char>, T>>,
    states: Seq<RequestState>,
    actions: Seq<RequestAction<'a, T, E>>,
    n: int,
)
    requires
        is_request(command, events, maps, states, actions),
        0 <= n < actions.len(),
        actions[n] matches RequestAction::Answer(DaemonResponse::Error(_)),
    ensures
        n == 0,
        actions[n] matches RequestAction::Answer(DaemonResponse::Error(text)) && text@
            == "Device not connected"@,
        match command {
            ClientCommand::Disconnect { name } => !maps[0].contains_key(name@),
            ClientCommand::Record { name } => !maps[0].contains_key(name@),
            _ => false,
        },
{
    if n > 0 {
        assert(advances(
            states[n - 1],
            events[n - 1],
            maps[n],
            maps[n + 1],
            states[n],
            actions[n],
        ));
    }
}

} // verus!
