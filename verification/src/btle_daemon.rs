//! How the daemon starts and takes clients in where Bluetooth is reached through
//! an interface that is the same on all platforms.

use crate::daemon::first_adapter;
use crate::device_map::DeviceMap;
use std::sync::Arc;
use vstd::prelude::*;

verus! {

/// How clients reach the daemon.
#[derive(Debug, Clone, Copy, PartialEq, Eq, Structural)]
pub enum Endpoint {
    /// Over a socket with a path.
    Socket,
    /// Over named pipes, one instance for each client.
    Pipe,
}

/// What the tasks of a daemon share. `A` is an adapter, `M` the device map in a
/// form that can be shared.
#[derive(Debug, PartialEq, Eq)]
pub struct Shared<A, M> {
    pub adapter: A,
    pub device_map: M,
}

/// What the daemon is waiting for. `C` is the pipe that a client may come over.
#[derive(Debug, PartialEq, Eq)]
pub enum BtleDaemonPhase<A, M, C> {
    Created,
    OpeningManager,
    ListingAdapters,
    SharingMap { adapter: A },
    RemovingSocket { shared: Arc<Shared<A, M>> },
    Binding { shared: Arc<Shared<A, M>> },
    /// For a client on the socket.
    Accepting { shared: Arc<Shared<A, M>> },
    CreatingPipe { shared: Arc<Shared<A, M>> },
    /// For a client on the pipe.
    ConnectingPipe { shared: Arc<Shared<A, M>>, pipe: C },
    Failed,
}

/// What happened. `E` is the error of an operation that failed.
#[derive(Debug, PartialEq, Eq)]
pub enum BtleDaemonEvent<A, M, C, E> {
    Started,
    /// The outcome of `ListAdapters`.
    Adapters(Result<Vec<A>, E>),
    /// The outcome of `ShareMap`.
    MapShared(M),
    /// The outcome of `Accept` or `CreatePipe`.
    Client(Result<C, E>),
    /// The outcome of an operation that yields nothing.
    Done(Result<(), E>),
}

/// What the driver has to do. `T` is the sending end of an actor's command
/// channel.
#[derive(Debug, PartialEq, Eq)]
pub enum BtleDaemonAction<A, M, T, C, E> {
    OpenManager,
    ListAdapters,
    /// Make this map one that tasks can share.
    ShareMap(DeviceMap<T>),
    /// Remove the socket's file.
    RemoveSocket,
    /// Bind the socket.
    Bind,
    /// Wait for a client.
    Accept,
    /// Spawn a task that handles this client with what the tasks share, and wait
    /// for the next.
    Serve { client: C, shared: Arc<Shared<A, M>> },
    /// Report that a client could not be accepted, and wait for the next.
    Report(E),
    /// Create the next instance of the pipe.
    CreatePipe,
    /// Wait for a client on the pipe.
    ConnectPipe,
    /// Spawn a task that handles this client with what the tasks share, and
    /// create the next pipe.
    ServePipe { client: C, shared: Arc<Shared<A, M>> },
    /// The daemon ends with an error.
    Fail(E),
    /// The event was not what the daemon waits for; it still waits.
    Ignore,
}

/// Whether the event can be taken in: a list of adapters names one.
pub open spec fn accepts<A, M, C, E>(
    phase: BtleDaemonPhase<A, M, C>,
    event: BtleDaemonEvent<A, M, C, E>,
) -> bool {
    match (phase, event) {
        (BtleDaemonPhase::ListingAdapters, BtleDaemonEvent::Adapters(Ok(adapters))) => adapters@.len()
            > 0,
        _ => true,
    }
}

/// Whether a daemon goes over from `phase` to `next` and asks for `action` when
/// `event` happens.
pub open spec fn runs<A, M, T, C, E>(
    endpoint: Endpoint,
    phase: BtleDaemonPhase<A, M, C>,
    event: BtleDaemonEvent<A, M, C, E>,
    next: BtleDaemonPhase<A, M, C>,
    action: BtleDaemonAction<A, M, T, C, E>,
) -> bool {
    match (phase, event) {
        (BtleDaemonPhase::Created, BtleDaemonEvent::Started) => {
            &&& next is OpeningManager
            &&& action is OpenManager
        },
        (BtleDaemonPhase::OpeningManager, BtleDaemonEvent::Done(Ok(_))) => {
            &&& next is ListingAdapters
            &&& action is ListAdapters
        },
        (BtleDaemonPhase::OpeningManager, BtleDaemonEvent::Done(Err(e))) => fails(e, next, action),
        (BtleDaemonPhase::ListingAdapters, BtleDaemonEvent::Adapters(Ok(adapters))) => {
            &&& next == BtleDaemonPhase::<A, M, C>::SharingMap { adapter: adapters@[0] }
            &&& action matches BtleDaemonAction::ShareMap(map)
            &&& crate::daemon::is_new_map(map)
        },
        (BtleDaemonPhase::SharingMap { adapter }, BtleDaemonEvent::MapShared(device_map)) => {
            let shared = Shared { adapter, device_map };
            match endpoint {
                Endpoint::Socket => {
                    &&& next matches BtleDaemonPhase::RemovingSocket { shared: held }
                    &&& *held == shared
                    &&& action is RemoveSocket
                },
                Endpoint::Pipe => {
                    &&& next matches BtleDaemonPhase::CreatingPipe { shared: held }
                    &&& *held == shared
                    &&& action is CreatePipe
                },
            }
        },
        (BtleDaemonPhase::ListingAdapters, BtleDaemonEvent::Adapters(Err(e))) => fails(
            e,
            next,
            action,
        ),
        (BtleDaemonPhase::RemovingSocket { shared }, BtleDaemonEvent::Done(_)) => {
            &&& next == BtleDaemonPhase::<A, M, C>::Binding { shared }
            &&& action is Bind
        },
        (BtleDaemonPhase::Binding { shared }, BtleDaemonEvent::Done(Ok(_))) => {
            &&& next == BtleDaemonPhase::<A, M, C>::Accepting { shared }
            &&& action is Accept
        },
        (BtleDaemonPhase::Binding { .. }, BtleDaemonEvent::Done(Err(e))) => fails(e, next, action),
        (BtleDaemonPhase::Accepting { shared }, BtleDaemonEvent::Client(Ok(client))) => {
            &&& next == phase
            &&& action == BtleDaemonAction::<A, M, T, C, E>::Serve { client, shared }
        },
        (BtleDaemonPhase::Accepting { .. }, BtleDaemonEvent::Client(Err(e))) => {
            &&& next == phase
            &&& action == BtleDaemonAction::<A, M, T, C, E>::Report(e)
        },
        (BtleDaemonPhase::CreatingPipe { shared }, BtleDaemonEvent::Client(Ok(pipe))) => {
            &&& next == BtleDaemonPhase::ConnectingPipe { shared, pipe }
            &&& action is ConnectPipe
        },
        (BtleDaemonPhase::CreatingPipe { .. }, BtleDaemonEvent::Client(Err(e))) => fails(
            e,
            next,
            action,
        ),
        (BtleDaemonPhase::ConnectingPipe { shared, pipe }, BtleDaemonEvent::Done(Ok(_))) => {
            &&& next == BtleDaemonPhase::<A, M, C>::CreatingPipe { shared }
            &&& action == BtleDaemonAction::<A, M, T, C, E>::ServePipe { client: pipe, shared }
        },
        (BtleDaemonPhase::ConnectingPipe { .. }, BtleDaemonEvent::Done(Err(e))) => fails(
            e,
            next,
            action,
        ),
        _ => next == phase && action is Ignore,
    }
}

/// The daemon ends with the error of an operation.
pub open spec fn fails<A, M, T, C, E>(
    error: E,
    next: BtleDaemonPhase<A, M, C>,
    action: BtleDaemonAction<A, M, T, C, E>,
) -> bool {
    next is Failed && action == BtleDaemonAction::<A, M, T, C, E>::Fail(error)
}

/// Whether the event can be taken in.
pub fn can_take<A, M, C, E>(
    phase: &BtleDaemonPhase<A, M, C>,
    event: &BtleDaemonEvent<A, M, C, E>,
) -> (taken: bool)
    ensures
        taken == accepts(*phase, *event),
{
    match (phase, event) {
        (BtleDaemonPhase::ListingAdapters, BtleDaemonEvent::Adapters(Ok(adapters))) => adapters.len()
            > 0,
        _ => true,
    }
}

/// What the daemon does when `event` happens.
pub fn run_daemon<A, M, T, C, E>(
    endpoint: Endpoint,
    phase: BtleDaemonPhase<A, M, C>,
    event: BtleDaemonEvent<A, M, C, E>,
) -> (result: (BtleDaemonPhase<A, M, C>, BtleDaemonAction<A, M, T, C, E>))
    requires
        accepts(phase, event),
    ensures
        runs(endpoint, phase, event, result.0, result.1),
{
    match (phase, event) {
        (BtleDaemonPhase::Created, BtleDaemonEvent::Started) => (
            BtleDaemonPhase::OpeningManager,
            BtleDaemonAction::OpenManager,
        ),
        (BtleDaemonPhase::OpeningManager, BtleDaemonEvent::Done(Ok(_))) => (
            BtleDaemonPhase::ListingAdapters,
            BtleDaemonAction::ListAdapters,
        ),
        (BtleDaemonPhase::OpeningManager, BtleDaemonEvent::Done(Err(e))) => (
            BtleDaemonPhase::Failed,
            BtleDaemonAction::Fail(e),
        ),
        (BtleDaemonPhase::ListingAdapters, BtleDaemonEvent::Adapters(Ok(adapters))) => {
            let adapter = first_adapter(adapters);
            (
                BtleDaemonPhase::SharingMap { adapter },
                BtleDaemonAction::ShareMap(DeviceMap::new()),
            )
        },
        (BtleDaemonPhase::SharingMap { adapter }, BtleDaemonEvent::MapShared(device_map)) => {
            let shared = Arc::new(Shared { adapter, device_map });
            match endpoint {
                Endpoint::Socket => (
                    BtleDaemonPhase::RemovingSocket { shared },
                    BtleDaemonAction::RemoveSocket,
                ),
                Endpoint::Pipe => (
                    BtleDaemonPhase::CreatingPipe { shared },
                    BtleDaemonAction::CreatePipe,
                ),
            }
        },
        (BtleDaemonPhase::ListingAdapters, BtleDaemonEvent::Adapters(Err(e))) => (
            BtleDaemonPhase::Failed,
            BtleDaemonAction::Fail(e),
        ),
        (BtleDaemonPhase::RemovingSocket { shared }, BtleDaemonEvent::Done(_)) => (
            BtleDaemonPhase::Binding { shared },
            BtleDaemonAction::Bind,
        ),
        (BtleDaemonPhase::Binding { shared }, BtleDaemonEvent::Done(Ok(_))) => (
            BtleDaemonPhase::Accepting { shared },
            BtleDaemonAction::Accept,
        ),
        (BtleDaemonPhase::Binding { .. }, BtleDaemonEvent::Done(Err(e))) => (
            BtleDaemonPhase::Failed,
            BtleDaemonAction::Fail(e),
        ),
        (BtleDaemonPhase::Accepting { shared }, BtleDaemonEvent::Client(Ok(client))) => {
            let handed = shared.clone();
            (
                BtleDaemonPhase::Accepting { shared },
                BtleDaemonAction::Serve { client, shared: handed },
            )
        },
        (BtleDaemonPhase::Accepting { shared }, BtleDaemonEvent::Client(Err(e))) => (
            BtleDaemonPhase::Accepting { shared },
            BtleDaemonAction::Report(e),
        ),
        (BtleDaemonPhase::CreatingPipe { shared }, BtleDaemonEvent::Client(Ok(pipe))) => (
            BtleDaemonPhase::ConnectingPipe { shared, pipe },
            BtleDaemonAction::ConnectPipe,
        ),
        (BtleDaemonPhase::CreatingPipe { .. }, BtleDaemonEvent::Client(Err(e))) => (
            BtleDaemonPhase::Failed,
            BtleDaemonAction::Fail(e),
        ),
        (BtleDaemonPhase::ConnectingPipe { shared, pipe }, BtleDaemonEvent::Done(Ok(_))) => {
            let handed = shared.clone();
            (
                BtleDaemonPhase::CreatingPipe { shared },
                BtleDaemonAction::ServePipe { client: pipe, shared: handed },
            )
        },
        (BtleDaemonPhase::ConnectingPipe { .. }, BtleDaemonEvent::Done(Err(e))) => (
            BtleDaemonPhase::Failed,
            BtleDaemonAction::Fail(e),
        ),
        (phase, _) => (phase, BtleDaemonAction::Ignore),
    }
}

/// A daemon that accepts clients on a socket does so for good, with the same
/// adapter and the same device map, and serves every client with these.
pub proof fn lemma_accepts_for_good<A, M, T, C, E>(
    endpoint: Endpoint,
    phase: BtleDaemonPhase<A, M, C>,
    event: BtleDaemonEvent<A, M, C, E>,
    next: BtleDaemonPhase<A, M, C>,
    action: BtleDaemonAction<A, M, T, C, E>,
    shared: Arc<Shared<A, M>>,
)
    requires
        runs(endpoint, phase, event, next, action),
        (phase == BtleDaemonPhase::<A, M, C>::Accepting { shared }),
    ensures
        next == phase,
        !(action is Fail),
        event matches BtleDaemonEvent::Client(Ok(client)) ==> action == (BtleDaemonAction::<
            A,
            M,
            T,
            C,
            E,
        >::Serve { client, shared }),
{
}

/// A socket that an earlier daemon left behind does not hinder: the file is
/// removed before the socket is bound, and it does not matter whether there was
/// one.
pub proof fn lemma_socket_removed_first<A, M, T, C, E>(
    endpoint: Endpoint,
    phase: BtleDaemonPhase<A, M, C>,
    event: BtleDaemonEvent<A, M, C, E>,
    next: BtleDaemonPhase<A, M, C>,
    action: BtleDaemonAction<A, M, T, C, E>,
)
    requires
        runs(endpoint, phase, event, next, action),
    ensures
        action is Bind ==> phase is RemovingSocket,
        next is RemovingSocket && !(phase is RemovingSocket) ==> action is RemoveSocket && endpoint
            is Socket,
        phase is RemovingSocket && event is Done ==> action is Bind,
{
}

/// Whether a daemon goes through these phases from its start on, with these
/// events and actions between them.
pub open spec fn is_run<A, M, T, C, E>(
    endpoint: Endpoint,
    phases: Seq<BtleDaemonPhase<A, M, C>>,
    events: Seq<BtleDaemonEvent<A, M, C, E>>,
    actions: Seq<BtleDaemonAction<A, M, T, C, E>>,
) -> bool {
    &&& phases.len() == events.len() + 1
    &&& actions.len() == events.len()
    &&& phases[0] is Created
    &&& forall|i: int|
        0 <= i < events.len() ==> runs(
            endpoint,
            phases[i],
            #[trigger] events[i],
            phases[i + 1],
            actions[i],
        )
}

/// What the tasks of a daemon share in a phase, once there is something.
pub open spec fn shared_in<A, M, C>(phase: BtleDaemonPhase<A, M, C>) -> Option<Shared<A, M>> {
    match phase {
        BtleDaemonPhase::RemovingSocket { shared } => Some(*shared),
        BtleDaemonPhase::Binding { shared } => Some(*shared),
        BtleDaemonPhase::Accepting { shared } => Some(*shared),
        BtleDaemonPhase::CreatingPipe { shared } => Some(*shared),
        BtleDaemonPhase::ConnectingPipe { shared, .. } => Some(*shared),
        _ => None,
    }
}

/// What a client is served with, where an action serves one.
pub open spec fn served_with<A, M, T, C, E>(
    action: BtleDaemonAction<A, M, T, C, E>,
) -> Option<Shared<A, M>> {
    match action {
        BtleDaemonAction::Serve { shared, .. } => Some(*shared),
        BtleDaemonAction::ServePipe { shared, .. } => Some(*shared),
        _ => None,
    }
}

/// Whether step number `k` of a run is the one at which the device map became
/// one that tasks can share.
pub open spec fn shares_at<A, M, C, E>(
    phases: Seq<BtleDaemonPhase<A, M, C>>,
    events: Seq<BtleDaemonEvent<A, M, C, E>>,
    k: int,
) -> bool {
    phases[k] is SharingMap && events[k] is MapShared
}

proof fn lemma_before_sharing<A, M, T, C, E>(
    endpoint: Endpoint,
    phases: Seq<BtleDaemonPhase<A, M, C>>,
    events: Seq<BtleDaemonEvent<A, M, C, E>>,
    actions: Seq<BtleDaemonAction<A, M, T, C, E>>,
    k: int,
    n: int,
)
    requires
        is_run(endpoint, phases, events, actions),
        0 <= n <= k < events.len(),
        shares_at(phases, events, k),
    ensures
        shared_in(phases[n]) is None,
        !(phases[n] is Failed),
    decreases k - n,
{
    if n < k {
        lemma_before_sharing(endpoint, phases, events, actions, k, n + 1);
        assert(runs(endpoint, phases[n], events[n], phases[n + 1], actions[n]));
    }
}

proof fn lemma_after_sharing<A, M, T, C, E>(
    endpoint: Endpoint,
    phases: Seq<BtleDaemonPhase<A, M, C>>,
    events: Seq<BtleDaemonEvent<A, M, C, E>>,
    actions: Seq<BtleDaemonAction<A, M, T, C, E>>,
    k: int,
    n: int,
)
    requires
        is_run(endpoint, phases, events, actions),
        0 <= k < n <= events.len(),
        shares_at(phases, events, k),
    ensures
        phases[n] is Failed || shared_in(phases[n]) == Some(
            Shared { adapter: phases[k]->SharingMap_adapter, device_map: events[k]->MapShared_0 },
        ),
    decreases n - k,
{
    if n > k + 1 {
        lemma_after_sharing(endpoint, phases, events, actions, k, n - 1);
    }
    assert(runs(endpoint, phases[n - 1], events[n - 1], phases[n], actions[n - 1]));
}

proof fn lemma_sharing_came<A, M, T, C, E>(
    endpoint: Endpoint,
    phases: Seq<BtleDaemonPhase<A, M, C>>,
    events: Seq<BtleDaemonEvent<A, M, C, E>>,
    actions: Seq<BtleDaemonAction<A, M, T, C, E>>,
    n: int,
) -> (k: int)
    requires
        is_run(endpoint, phases, events, actions),
        0 <= n <= events.len(),
        shared_in(phases[n]) is Some,
    ensures
        0 <= k < n,
        shares_at(phases, events, k),
    decreases n,
{
    assert(runs(endpoint, phases[n - 1], events[n - 1], phases[n], actions[n - 1]));
    if shared_in(phases[n - 1]) is Some {
        lemma_sharing_came(endpoint, phases, events, actions, n - 1)
    } else {
        n - 1
    }
}

/// All clients of a daemon are served with one adapter and one device map: any
/// two are served with the same, whenever they come.
pub proof fn lemma_one_map_for_all<A, M, T, C, E>(
    endpoint: Endpoint,
    phases: Seq<BtleDaemonPhase<A, M, C>>,
    events: Seq<BtleDaemonEvent<A, M, C, E>>,
    actions: Seq<BtleDaemonAction<A, M, T, C, E>>,
    i: int,
    j: int,
)
    requires
        is_run(endpoint, phases, events, actions),
        0 <= i < actions.len(),
        0 <= j < actions.len(),
        served_with(actions[i]) is Some,
        served_with(actions[j]) is Some,
    ensures
        served_with(actions[i]) == served_with(actions[j]),
{
    assert(runs(endpoint, phases[i], events[i], phases[i + 1], actions[i]));
    assert(runs(endpoint, phases[j], events[j], phases[j + 1], actions[j]));
    let k = lemma_sharing_came(endpoint, phases, events, actions, i);
    if j <= k {
        lemma_before_sharing(endpoint, phases, events, actions, k, j);
    }
    lemma_after_sharing(endpoint, phases, events, actions, k, i);
    lemma_after_sharing(endpoint, phases, events, actions, k, j);
}

/// The device map that clients are served with was made of a map without
/// entries, the only one that the daemon ever hands out to be shared, and the
/// adapter is the first one that was listed.
pub proof fn lemma_map_starts_empty<A, M, T, C, E>(
    endpoint: Endpoint,
    phases: Seq<BtleDaemonPhase<A, M, C>>,
    events: Seq<BtleDaemonEvent<A, M, C, E>>,
    actions: Seq<BtleDaemonAction<A, M, T, C, E>>,
    i: int,
)
    requires
        is_run(endpoint, phases, events, actions),
        0 <= i < actions.len(),
        served_with(actions[i]) is Some,
    ensures
        exists|h: int, k: int|
            #![trigger actions[h], events[k]]
            {
                &&& 0 <= h < k < i
                &&& actions[h] matches BtleDaemonAction::ShareMap(map)
                &&& crate::daemon::is_new_map(map)
                &&& events[h] matches BtleDaemonEvent::Adapters(Ok(adapters))
                &&& events[k] matches BtleDaemonEvent::MapShared(device_map)
                &&& served_with(actions[i]) == Some(Shared { adapter: adapters@[0], device_map })
            },
        forall|h: int, g: int|
            0 <= h < actions.len() && 0 <= g < actions.len() && (#[trigger] actions[h]) is ShareMap
                && (#[trigger] actions[g]) is ShareMap ==> h == g,
{
    assert(runs(endpoint, phases[i], events[i], phases[i + 1], actions[i]));
    let k = lemma_sharing_came(endpoint, phases, events, actions, i);
    lemma_after_sharing(endpoint, phases, events, actions, k, i);
    let h = lemma_handed_out(endpoint, phases, events, actions, k);
    assert(runs(endpoint, phases[h], events[h], phases[h + 1], actions[h]));
    assert(runs(endpoint, phases[k], events[k], phases[k + 1], actions[k]));
    assert(actions[h] is ShareMap && events[k] is MapShared);
    assert forall|h: int, g: int|
        0 <= h < actions.len() && 0 <= g < actions.len() && (#[trigger] actions[h]) is ShareMap && (
        #[trigger] actions[g]) is ShareMap implies h == g by {
        if h < g {
            lemma_handed_out_once(endpoint, phases, events, actions, h, g);
        }
        if g < h {
            lemma_handed_out_once(endpoint, phases, events, actions, g, h);
        }
    }
}

proof fn lemma_handed_out<A, M, T, C, E>(
    endpoint: Endpoint,
    phases: Seq<BtleDaemonPhase<A, M, C>>,
    events: Seq<BtleDaemonEvent<A, M, C, E>>,
    actions: Seq<BtleDaemonAction<A, M, T, C, E>>,
    k: int,
) -> (h: int)
    requires
        is_run(endpoint, phases, events, actions),
        0 <= k <= events.len(),
        phases[k] is SharingMap,
    ensures
        0 <= h < k,
        actions[h] is ShareMap,
        phases[h + 1] == phases[k],
    decreases k,
{
    assert(runs(endpoint, phases[k - 1], events[k - 1], phases[k], actions[k - 1]));
    if phases[k - 1] is SharingMap {
        lemma_handed_out(endpoint, phases, events, actions, k - 1)
    } else {
        k - 1
    }
}

proof fn lemma_handed_out_once<A, M, T, C, E>(
    endpoint: Endpoint,
    phases: Seq<BtleDaemonPhase<A, M, C>>,
    events: Seq<BtleDaemonEvent<A, M, C, E>>,
    actions: Seq<BtleDaemonAction<A, M, T, C, E>>,
    h: int,
    n: int,
)
    requires
        is_run(endpoint, phases, events, actions),
        0 <= h < n < actions.len(),
        actions[h] is ShareMap,
    ensures
        phases[n] is SharingMap || phases[n] is Failed || shared_in(phases[n]) is Some,
        !(actions[n] is ShareMap),
    decreases n,
{
    if n > h + 1 {
        lemma_handed_out_once(endpoint, phases, events, actions, h, n - 1);
    }
    assert(runs(endpoint, phases[n - 1], events[n - 1], phases[n], actions[n - 1]));
    assert(runs(endpoint, phases[n], events[n], phases[n + 1], actions[n]));
}

/// The only thing that a daemon cannot take in is a list of adapters that names
/// none, where it has asked for one.
pub proof fn lemma_can_take<A, M, T, C, E>(
    endpoint: Endpoint,
    phase: BtleDaemonPhase<A, M, C>,
    event: BtleDaemonEvent<A, M, C, E>,
    taken: bool,
)
    requires
        call_ensures(can_take::<A, M, C, E>, (&phase, &event), taken),
    ensures
        call_requires(can_take::<A, M, C, E>, (&phase, &event)),
        !taken <==> phase is ListingAdapters && (event matches BtleDaemonEvent::Adapters(
            Ok(adapters),
        ) && adapters@.len() == 0),
        taken ==> call_requires(run_daemon::<A, M, T, C, E>, (endpoint, phase, event)),
{
}

/// A daemon opens the manager, lists the adapters and has an empty device map
/// shared. On a socket it then removes the old file and binds. Each comes when the
/// one before it has worked, but for the removal, which need not. A failure ends
/// the daemon with its error.
pub proof fn lemma_start_steps<A, M, T, C, E>(
    endpoint: Endpoint,
    phase: BtleDaemonPhase<A, M, C>,
    event: BtleDaemonEvent<A, M, C, E>,
    next: BtleDaemonPhase<A, M, C>,
    action: BtleDaemonAction<A, M, T, C, E>,
)
    requires
        call_ensures(run_daemon::<A, M, T, C, E>, (endpoint, phase, event), (next, action)),
    ensures
        action is OpenManager <==> phase is Created && event is Started,
        action is OpenManager ==> next is OpeningManager,
        action is ListAdapters <==> phase is OpeningManager && (event
            matches BtleDaemonEvent::Done(Ok(_))),
        action is ListAdapters ==> next is ListingAdapters,
        action is ShareMap <==> phase is ListingAdapters && (event
            matches BtleDaemonEvent::Adapters(Ok(_))),
        action matches BtleDaemonAction::ShareMap(map) ==> {
            &&& map.wf()
            &&& map@.dom() == Set::<Seq<char>>::empty()
            &&& next matches BtleDaemonPhase::SharingMap { adapter }
            &&& event matches BtleDaemonEvent::Adapters(Ok(adapters))
            &&& adapter == adapters@[0]
        },
        action is RemoveSocket <==> phase is SharingMap && event is MapShared && endpoint
            is Socket,
        action is CreatePipe <==> phase is SharingMap && event is MapShared && endpoint is Pipe,
        phase is SharingMap && event is MapShared ==> {
            let shared = match next {
                BtleDaemonPhase::RemovingSocket { shared } if endpoint is Socket => Some(*shared),
                BtleDaemonPhase::CreatingPipe { shared } if endpoint is Pipe => Some(*shared),
                _ => None,
            };
            &&& shared is Some
            &&& phase matches BtleDaemonPhase::SharingMap { adapter }
            &&& event matches BtleDaemonEvent::MapShared(device_map)
            &&& shared->0.adapter == adapter
            &&& shared->0.device_map == device_map
        },
        action is Bind <==> phase is RemovingSocket && event is Done,
        action is Bind ==> (next matches BtleDaemonPhase::Binding { shared } && (
        phase matches BtleDaemonPhase::RemovingSocket { shared: kept } && shared == kept)),
        action is Accept <==> phase is Binding && (event matches BtleDaemonEvent::Done(Ok(_))),
        action is Accept ==> (next matches BtleDaemonPhase::Accepting { shared } && (
        phase matches BtleDaemonPhase::Binding { shared: kept } && shared == kept)),
{
}

/// A daemon on a socket serves each client that comes and reports each that could
/// not be accepted. One on pipes creates a pipe, waits for a client on it, serves
/// the client over it and creates the next. All clients are served with what the
/// tasks share, which stays the same.
pub proof fn lemma_client_steps<A, M, T, C, E>(
    endpoint: Endpoint,
    phase: BtleDaemonPhase<A, M, C>,
    event: BtleDaemonEvent<A, M, C, E>,
    next: BtleDaemonPhase<A, M, C>,
    action: BtleDaemonAction<A, M, T, C, E>,
)
    requires
        call_ensures(run_daemon::<A, M, T, C, E>, (endpoint, phase, event), (next, action)),
    ensures
        action is Serve <==> phase is Accepting && (event
            matches BtleDaemonEvent::Client(Ok(_))),
        action matches BtleDaemonAction::Serve { client, shared } ==> {
            &&& event matches BtleDaemonEvent::Client(Ok(came))
            &&& came == client
            &&& phase == (BtleDaemonPhase::<A, M, C>::Accepting { shared })
            &&& next == phase
        },
        action is Report <==> phase is Accepting && (event
            matches BtleDaemonEvent::Client(Err(_))),
        action matches BtleDaemonAction::Report(told) ==> next == phase && (
        event matches BtleDaemonEvent::Client(Err(e)) && told == e),
        action is ConnectPipe <==> phase is CreatingPipe && (event
            matches BtleDaemonEvent::Client(Ok(_))),
        action is ConnectPipe ==> {
            &&& next matches BtleDaemonPhase::ConnectingPipe { shared, pipe }
            &&& phase == (BtleDaemonPhase::<A, M, C>::CreatingPipe { shared })
            &&& event matches BtleDaemonEvent::Client(Ok(came))
            &&& came == pipe
        },
        action is ServePipe <==> phase is ConnectingPipe && (event
            matches BtleDaemonEvent::Done(Ok(_))),
        action matches BtleDaemonAction::ServePipe { client, shared } ==> {
            &&& phase == (BtleDaemonPhase::ConnectingPipe { shared, pipe: client })
            &&& next == (BtleDaemonPhase::<A, M, C>::CreatingPipe { shared })
        },
{
}

/// A daemon fails exactly where it cannot open the manager, list the adapters,
/// bind the socket, or create or connect a pipe, and then with that error. What it
/// does not wait for changes nothing.
pub proof fn lemma_failing_steps<A, M, T, C, E>(
    endpoint: Endpoint,
    phase: BtleDaemonPhase<A, M, C>,
    event: BtleDaemonEvent<A, M, C, E>,
    next: BtleDaemonPhase<A, M, C>,
    action: BtleDaemonAction<A, M, T, C, E>,
)
    requires
        call_ensures(run_daemon::<A, M, T, C, E>, (endpoint, phase, event), (next, action)),
    ensures
        action is Fail <==> {
            ||| (phase is OpeningManager || phase is Binding || phase is ConnectingPipe) && (
            event matches BtleDaemonEvent::Done(Err(_)))
            ||| phase is ListingAdapters && (event matches BtleDaemonEvent::Adapters(Err(_)))
            ||| phase is CreatingPipe && (event matches BtleDaemonEvent::Client(Err(_)))
        },
        action is Fail <==> next is Failed && !(phase is Failed),
        action matches BtleDaemonAction::Fail(told) ==> (match event {
            BtleDaemonEvent::Done(Err(e)) => told == e,
            BtleDaemonEvent::Adapters(Err(e)) => told == e,
            BtleDaemonEvent::Client(Err(e)) => told == e,
            _ => false,
        }),
        action is Ignore <==> (match event {
            BtleDaemonEvent::Started => !(phase is Created),
            BtleDaemonEvent::Adapters(_) => !(phase is ListingAdapters),
            BtleDaemonEvent::MapShared(_) => !(phase is SharingMap),
            BtleDaemonEvent::Client(_) => !(phase is Accepting) && !(phase is CreatingPipe),
            BtleDaemonEvent::Done(_) => !(phase is OpeningManager) && !(phase is RemovingSocket)
                && !(phase is Binding) && !(phase is ConnectingPipe),
        }),
        action is Ignore ==> next == phase,
{
}

} // verus!
