//! How the daemon starts, takes clients in and goes down.

use crate::device_map::DeviceMap;
use vstd::prelude::*;

verus! {

/// What is said where the socket cannot be bound.
pub const ALREADY_RUNNING: &'static str = "There seems to be a daemon running allready";

/// How long to wait before looking again whether all actors are gone, in
/// milliseconds.
pub const POLL_MS: u64 = 50;

/// What the tasks of a daemon share. `S` is the Bluetooth session, `A` an
/// adapter, `M` the device map.
#[derive(Debug, PartialEq, Eq)]
pub struct Daemon<S, A, M> {
    pub session: S,
    pub adapter: A,
    pub device_map: M,
}

/// What a daemon is waiting for.
#[derive(Debug, PartialEq, Eq)]
pub enum DaemonPhase {
    Created,
    InstallingHandler,
    Binding,
    /// For a client.
    Accepting,
    Failed,
}

/// What happened. `C` is a client that was accepted, `E` the error of an
/// operation that failed.
#[derive(Debug, PartialEq, Eq)]
pub enum DaemonEvent<C, E> {
    Started,
    /// The outcome of `InstallHandler`.
    Installed(Result<(), E>),
    /// The outcome of `Bind`.
    Bound(Result<(), E>),
    /// The outcome of waiting for a client.
    Accepted(Result<C, E>),
}

/// Why a daemon failed.
#[derive(Debug, PartialEq, Eq)]
pub enum DaemonError<E> {
    /// The socket could not be bound; the text says what that may mean.
    Bind { context: String, error: E },
    /// An operation failed.
    Operation(E),
}

/// What the driver has to do.
#[derive(Debug, PartialEq, Eq)]
pub enum DaemonAction<'a, S, A, M, C, E> {
    /// Have an interrupt go through the steps of `shut_down`.
    InstallHandler,
    /// Bind the socket.
    Bind,
    /// Wait for a client.
    Accept,
    /// Spawn a task that handles this client with the session, the adapter and
    /// the device map of the daemon, and wait for the next.
    Serve { client: C, daemon: &'a Daemon<S, A, M> },
    /// Report that a client could not be accepted, and wait for the next.
    Report(E),
    /// The daemon ends with an error.
    Fail(DaemonError<E>),
    /// The event was not what the daemon waits for; it still waits.
    Ignore,
}

/// What a daemon that waits for a client does with what came of it: a client is
/// served with what the daemon holds, a failure is reported, and it waits on
/// either way.
pub open spec fn takes_in<'a, S, A, M, C, E>(
    daemon: Daemon<S, A, M>,
    outcome: Result<C, E>,
    next: DaemonPhase,
    action: DaemonAction<'a, S, A, M, C, E>,
) -> bool {
    &&& next is Accepting
    &&& match outcome {
        Ok(client) => {
            &&& action matches DaemonAction::Serve { client: served, daemon: by }
            &&& served == client
            &&& *by == daemon
        },
        Err(e) => action matches DaemonAction::Report(told) && told == e,
    }
}

/// Whether `daemon` goes over from `phase` to `next` and asks for `action` when
/// `event` happens.
pub open spec fn runs<'a, S, A, M, C, E>(
    daemon: Daemon<S, A, M>,
    phase: DaemonPhase,
    event: DaemonEvent<C, E>,
    next: DaemonPhase,
    action: DaemonAction<'a, S, A, M, C, E>,
) -> bool {
    match (phase, event) {
        (DaemonPhase::Created, DaemonEvent::Started) => {
            &&& next is InstallingHandler
            &&& action is InstallHandler
        },
        (DaemonPhase::InstallingHandler, DaemonEvent::Installed(Ok(_))) => {
            &&& next is Binding
            &&& action is Bind
        },
        (DaemonPhase::InstallingHandler, DaemonEvent::Installed(Err(e))) => {
            &&& next is Failed
            &&& action matches DaemonAction::Fail(DaemonError::Operation(told))
            &&& told == e
        },
        (DaemonPhase::Binding, DaemonEvent::Bound(Ok(_))) => {
            &&& next is Accepting
            &&& action is Accept
        },
        (DaemonPhase::Binding, DaemonEvent::Bound(Err(e))) => {
            &&& next is Failed
            &&& action matches DaemonAction::Fail(DaemonError::Bind { context, error })
            &&& context@ == ALREADY_RUNNING@
            &&& error == e
        },
        (DaemonPhase::Accepting, DaemonEvent::Accepted(outcome)) => takes_in(
            daemon,
            outcome,
            next,
            action,
        ),
        _ => next == phase && action is Ignore,
    }
}

/// Whether a device map is one without entries.
pub open spec fn is_new_map<T>(map: DeviceMap<T>) -> bool {
    map.wf() && map@ == Map::<Seq<char>, T>::empty()
}

/// The first adapter of those that were listed.
pub fn first_adapter<A>(adapters: Vec<A>) -> (adapter: A)
    requires
        adapters@.len() > 0,
    ensures
        adapter == adapters@[0],
{
    let mut adapters = adapters;
    adapters.swap_remove(0)
}

impl<S, A, M> Daemon<S, A, M> {
    /// A daemon that uses the first adapter. Its device map starts without
    /// entries; `share` makes of it what the tasks of the daemon can share.
    pub fn new<T, F: FnOnce(DeviceMap<T>) -> M>(
        session: S,
        adapters: Vec<A>,
        share: F,
    ) -> (daemon: Self)
        requires
            adapters@.len() > 0,
            forall|map: DeviceMap<T>|
                is_new_map(map) ==> #[trigger] call_requires(share, (map,)),
        ensures
            daemon.session == session,
            daemon.adapter == adapters@[0],
            exists|map: DeviceMap<T>|
                is_new_map(map) && #[trigger] call_ensures(share, (map,), daemon.device_map),
    {
        let map: DeviceMap<T> = DeviceMap::new();
        let ghost handed = map;
        let device_map = share(map);
        let daemon = Daemon { session, adapter: first_adapter(adapters), device_map };
        assert(is_new_map(handed) && call_ensures(share, (handed,), daemon.device_map));
        daemon
    }

    /// What the daemon does when `event` happens.
    pub fn run<'a, C, E>(&'a self, phase: DaemonPhase, event: DaemonEvent<C, E>) -> (result: (
        DaemonPhase,
        DaemonAction<'a, S, A, M, C, E>,
    ))
        ensures
            runs(*self, phase, event, result.0, result.1),
    {
        match (phase, event) {
            (DaemonPhase::Created, DaemonEvent::Started) => (
                DaemonPhase::InstallingHandler,
                DaemonAction::InstallHandler,
            ),
            (DaemonPhase::InstallingHandler, DaemonEvent::Installed(Ok(_))) => (
                DaemonPhase::Binding,
                DaemonAction::Bind,
            ),
            (DaemonPhase::InstallingHandler, DaemonEvent::Installed(Err(e))) => (
                DaemonPhase::Failed,
                DaemonAction::Fail(DaemonError::Operation(e)),
            ),
            (DaemonPhase::Binding, DaemonEvent::Bound(Ok(_))) => (
                DaemonPhase::Accepting,
                DaemonAction::Accept,
            ),
            (DaemonPhase::Binding, DaemonEvent::Bound(Err(error))) => {
                let context = ALREADY_RUNNING.to_string();
                (
                    DaemonPhase::Failed,
                    DaemonAction::Fail(DaemonError::Bind { context, error }),
                )
            },
            (DaemonPhase::Accepting, DaemonEvent::Accepted(Ok(client))) => (
                DaemonPhase::Accepting,
                DaemonAction::Serve { client, daemon: self },
            ),
            (DaemonPhase::Accepting, DaemonEvent::Accepted(Err(e))) => (
                DaemonPhase::Accepting,
                DaemonAction::Report(e),
            ),
            (phase, _) => (phase, DaemonAction::Ignore),
        }
    }
}

/// A daemon that waits for clients does so for good: whatever happens, it is
/// neither over nor fails, and every client that comes is served with the
/// session, the adapter and the device map that the daemon holds.
pub proof fn lemma_accepts_for_good<'a, S, A, M, C, E>(
    daemon: Daemon<S, A, M>,
    event: DaemonEvent<C, E>,
    next: DaemonPhase,
    action: DaemonAction<'a, S, A, M, C, E>,
)
    requires
        runs(daemon, DaemonPhase::Accepting, event, next, action),
    ensures
        next is Accepting,
        !(action is Fail),
        event matches DaemonEvent::Accepted(Ok(client)) ==> (
        action matches DaemonAction::Serve { client: served, daemon: by } && served == client
            && by.session == daemon.session && by.adapter == daemon.adapter && by.device_map
            == daemon.device_map),
{
}

/// A client is served only where the daemon had bound the socket, and the socket
/// is bound only where an interrupt is handled.
pub proof fn lemma_start_order<'a, S, A, M, C, E>(
    daemon: Daemon<S, A, M>,
    phase: DaemonPhase,
    event: DaemonEvent<C, E>,
    next: DaemonPhase,
    action: DaemonAction<'a, S, A, M, C, E>,
)
    requires
        runs(daemon, phase, event, next, action),
    ensures
        action is Serve ==> phase is Accepting,
        next is Accepting && !(phase is Accepting) ==> phase is Binding && (event
            matches DaemonEvent::Bound(Ok(_))),
        next is Binding && !(phase is Binding) ==> phase is InstallingHandler && (
        event matches DaemonEvent::Installed(Ok(_))),
{
}

/// The clients that were accepted, in order.
pub open spec fn accepted<C, E>(events: Seq<DaemonEvent<C, E>>) -> Seq<C>
    decreases events.len(),
{
    if events.len() == 0 {
        Seq::empty()
    } else {
        match events.last() {
            DaemonEvent::Accepted(Ok(client)) => accepted(events.drop_last()).push(client),
            _ => accepted(events.drop_last()),
        }
    }
}

/// The clients that were served, in order.
pub open spec fn served<'a, S, A, M, C, E>(
    actions: Seq<DaemonAction<'a, S, A, M, C, E>>,
) -> Seq<C>
    decreases actions.len(),
{
    if actions.len() == 0 {
        Seq::empty()
    } else {
        match actions.last() {
            DaemonAction::Serve { client, .. } => served(actions.drop_last()).push(client),
            _ => served(actions.drop_last()),
        }
    }
}

/// Whatever comes of waiting for clients, a daemon serves those that were
/// accepted, each once and in order, and no others. It serves all of them with
/// its own session, its own adapter and its one device map, and waits on.
pub proof fn lemma_each_client_served<'a, S, A, M, C, E>(
    daemon: Daemon<S, A, M>,
    phases: Seq<DaemonPhase>,
    events: Seq<DaemonEvent<C, E>>,
    actions: Seq<DaemonAction<'a, S, A, M, C, E>>,
)
    requires
        phases.len() == events.len() + 1,
        actions.len() == events.len(),
        phases[0] is Accepting,
        forall|i: int|
            0 <= i < events.len() ==> runs(
                daemon,
                phases[i],
                #[trigger] events[i],
                phases[i + 1],
                actions[i],
            ),
    ensures
        served(actions) == accepted(events),
        forall|i: int|
            0 <= i < actions.len() && (#[trigger] actions[i]) is Serve ==> (
            actions[i] matches DaemonAction::Serve { daemon: by, .. } && *by == daemon),
        phases.last() is Accepting,
    decreases events.len(),
{
    if events.len() > 0 {
        let n = events.len() - 1;
        let (before, past, done) = (phases.drop_last(), events.drop_last(), actions.drop_last());
        assert forall|i: int| 0 <= i < past.len() implies runs(
            daemon,
            before[i],
            #[trigger] past[i],
            before[i + 1],
            done[i],
        ) by {
            assert(runs(daemon, phases[i], events[i], phases[i + 1], actions[i]));
        }
        lemma_each_client_served(daemon, before, past, done);
        assert(runs(daemon, phases[n], events[n], phases[n + 1], actions[n]));
        assert forall|i: int| 0 <= i < actions.len() && (#[trigger] actions[i]) is Serve implies (
        actions[i] matches DaemonAction::Serve { daemon: by, .. } && *by == daemon) by {
            if i < n {
                assert(done[i] == actions[i]);
            }
        }
    }
}

/// How far the shutdown of a daemon has come.
#[derive(Debug, Clone, Copy, PartialEq, Eq, Structural)]
pub enum ShutdownPhase {
    Interrupted,
    /// The actors before number `next` in the visiting order were told.
    Telling { next: usize },
    Waiting,
    Over,
}

/// What the driver has to do.
#[derive(Debug, Clone, Copy, PartialEq, Eq, Structural)]
pub enum ShutdownAction {
    /// Remove the socket's file, whether that works or not.
    RemoveSocket,
    /// Send `Shutdown` to the actor that is visited as number `index`, whether
    /// that works or not.
    Tell { index: usize },
    /// Let the actors go on, and look at the device map again.
    Look,
    Sleep { ms: u64 },
    /// Leave the process with this exit code.
    Exit { code: i32 },
}

/// Whether a shutdown goes over from `phase` to `next` and asks for `action`
/// where the device map holds `entries` actors.
pub open spec fn shuts_down(
    phase: ShutdownPhase,
    entries: int,
    next: ShutdownPhase,
    action: ShutdownAction,
) -> bool {
    match phase {
        ShutdownPhase::Interrupted => {
            &&& next == ShutdownPhase::Telling { next: 0 }
            &&& action is RemoveSocket
        },
        ShutdownPhase::Telling { next: index } => if index < entries {
            &&& next == ShutdownPhase::Telling { next: (index + 1) as usize }
            &&& action == ShutdownAction::Tell { index }
        } else {
            &&& next is Waiting
            &&& action is Look
        },
        ShutdownPhase::Waiting => if entries == 0 {
            &&& next is Over
            &&& action == ShutdownAction::Exit { code: 0 }
        } else {
            &&& next is Waiting
            &&& action == ShutdownAction::Sleep { ms: POLL_MS }
        },
        ShutdownPhase::Over => {
            &&& next is Over
            &&& action == ShutdownAction::Exit { code: 0 }
        },
    }
}

/// Takes the shutdown of a daemon on, where the device map holds `entries`
/// actors.
pub fn shut_down(phase: ShutdownPhase, entries: usize) -> (result: (ShutdownPhase, ShutdownAction))
    ensures
        shuts_down(phase, entries as int, result.0, result.1),
{
    match phase {
        ShutdownPhase::Interrupted => (
            ShutdownPhase::Telling { next: 0 },
            ShutdownAction::RemoveSocket,
        ),
        ShutdownPhase::Telling { next: index } => {
            if index < entries {
                (ShutdownPhase::Telling { next: index + 1 }, ShutdownAction::Tell { index })
            } else {
                (ShutdownPhase::Waiting, ShutdownAction::Look)
            }
        },
        ShutdownPhase::Waiting => {
            if entries == 0 {
                (ShutdownPhase::Over, ShutdownAction::Exit { code: 0 })
            } else {
                (ShutdownPhase::Waiting, ShutdownAction::Sleep { ms: POLL_MS })
            }
        },
        ShutdownPhase::Over => (ShutdownPhase::Over, ShutdownAction::Exit { code: 0 }),
    }
}

/// A daemon that is shut down leaves only when no actor is left.
pub proof fn lemma_exit_when_empty(
    phase: ShutdownPhase,
    entries: int,
    next: ShutdownPhase,
    action: ShutdownAction,
)
    requires
        shuts_down(phase, entries, next, action),
        !(phase is Over),
    ensures
        action is Exit <==> phase is Waiting && entries == 0,
        next is Over <==> action is Exit,
{
}

/// A shutdown tells every actor, each once and in the visiting order, before it
/// starts to wait, as long as no actor comes or goes meanwhile.
pub proof fn lemma_every_actor_told(
    phases: Seq<ShutdownPhase>,
    actions: Seq<ShutdownAction>,
    entries: nat,
)
    requires
        entries <= usize::MAX,
        phases.len() == entries + 3,
        actions.len() == entries + 2,
        phases[0] is Interrupted,
        forall|i: int|
            0 <= i < actions.len() ==> shuts_down(
                phases[i],
                entries as int,
                phases[i + 1],
                #[trigger] actions[i],
            ),
    ensures
        actions[0] is RemoveSocket,
        forall|i: int|
            0 <= i < entries ==> #[trigger] actions[i + 1] == (ShutdownAction::Tell {
                index: i as usize,
            }),
        actions[entries as int + 1] is Look,
        phases.last() is Waiting,
{
    assert(shuts_down(phases[0], entries as int, phases[1], actions[0]));
    lemma_telling(phases, actions, entries, entries as int);
    let e = entries as int;
    assert(shuts_down(phases[e + 1], e, phases[e + 2], actions[e + 1]));
}

proof fn lemma_telling(
    phases: Seq<ShutdownPhase>,
    actions: Seq<ShutdownAction>,
    entries: nat,
    n: int,
)
    requires
        entries <= usize::MAX,
        0 <= n <= entries,
        phases.len() == entries + 3,
        actions.len() == entries + 2,
        phases[1] == (ShutdownPhase::Telling { next: 0 }),
        forall|i: int|
            0 <= i < actions.len() ==> shuts_down(
                phases[i],
                entries as int,
                phases[i + 1],
                #[trigger] actions[i],
            ),
    ensures
        phases[n + 1] == (ShutdownPhase::Telling { next: n as usize }),
        forall|i: int|
            0 <= i < n ==> #[trigger] actions[i + 1] == (ShutdownAction::Tell {
                index: i as usize,
            }),
    decreases n,
{
    if n > 0 {
        lemma_telling(phases, actions, entries, n - 1);
        assert(shuts_down(phases[n], entries as int, phases[n + 1], actions[n]));
        assert forall|i: int| 0 <= i < n implies #[trigger] actions[i + 1] == (
        ShutdownAction::Tell { index: i as usize }) by {
            if i == n - 1 {
                assert(actions[i + 1] == actions[n]);
            }
        }
    }
}

/// Of the adapters that were listed, the one listed first is used.
pub proof fn lemma_first_adapter<A>(adapters: Vec<A>, adapter: A)
    requires
        adapters@.len() > 0,
        call_ensures(first_adapter::<A>, (adapters,), adapter),
    ensures
        call_requires(first_adapter::<A>, (adapters,)),
        adapter == adapters@[0],
{
}

/// A daemon first has an interrupt handled, then binds the socket, then takes
/// clients in. Each comes when the one before it has worked, and a failure of one
/// of the first two ends the daemon with its error.
pub proof fn lemma_daemon_steps<'a, S, A, M, C, E>(
    daemon: &'a Daemon<S, A, M>,
    phase: DaemonPhase,
    event: DaemonEvent<C, E>,
    next: DaemonPhase,
    action: DaemonAction<'a, S, A, M, C, E>,
)
    requires
        call_ensures(Daemon::<S, A, M>::run::<C, E>, (daemon, phase, event), (next, action)),
    ensures
        call_requires(Daemon::<S, A, M>::run::<C, E>, (daemon, phase, event)),
        action is InstallHandler <==> phase is Created && event is Started,
        action is InstallHandler ==> next is InstallingHandler,
        action is Bind <==> phase is InstallingHandler && (event
            matches DaemonEvent::Installed(Ok(_))),
        action is Bind ==> next is Binding,
        action is Accept <==> phase is Binding && (event matches DaemonEvent::Bound(Ok(_))),
        action is Accept ==> next is Accepting,
        action is Fail <==> {
            ||| phase is InstallingHandler && (event matches DaemonEvent::Installed(Err(_)))
            ||| phase is Binding && (event matches DaemonEvent::Bound(Err(_)))
        },
        action is Fail <==> next is Failed && !(phase is Failed),
        action matches DaemonAction::Fail(DaemonError::Operation(told)) ==> (
        event matches DaemonEvent::Installed(Err(e)) && told == e),
        action matches DaemonAction::Fail(DaemonError::Bind { context, error }) ==> (
        event matches DaemonEvent::Bound(Err(e)) && error == e && context@
            == "There seems to be a daemon running allready"@),
        action is Serve <==> phase is Accepting && (event matches DaemonEvent::Accepted(Ok(_))),
        action matches DaemonAction::Serve { client, daemon: by } ==> {
            &&& next is Accepting
            &&& event matches DaemonEvent::Accepted(Ok(accepted))
            &&& accepted == client
            &&& by.session == daemon.session
            &&& by.adapter == daemon.adapter
            &&& by.device_map == daemon.device_map
        },
        action is Report <==> phase is Accepting && (event
            matches DaemonEvent::Accepted(Err(_))),
        action matches DaemonAction::Report(told) ==> next is Accepting && (
        event matches DaemonEvent::Accepted(Err(e)) && told == e),
        action is Ignore <==> (match event {
            DaemonEvent::Started => !(phase is Created),
            DaemonEvent::Installed(_) => !(phase is InstallingHandler),
            DaemonEvent::Bound(_) => !(phase is Binding),
            DaemonEvent::Accepted(_) => !(phase is Accepting),
        }),
        action is Ignore ==> next == phase,
{
}

/// A shutdown removes the socket, tells the actors by number from the first to the
/// last, then looks every fifty milliseconds whether any is left, and leaves
/// without an error once none is.
pub proof fn lemma_shutdown_steps(
    phase: ShutdownPhase,
    entries: usize,
    next: ShutdownPhase,
    action: ShutdownAction,
)
    requires
        call_ensures(shut_down, (phase, entries), (next, action)),
    ensures
        call_requires(shut_down, (phase, entries)),
        action is RemoveSocket <==> phase is Interrupted,
        action is RemoveSocket ==> next == (ShutdownPhase::Telling { next: 0 }),
        action matches ShutdownAction::Tell { index } ==> {
            &&& index < entries
            &&& phase == (ShutdownPhase::Telling { next: index })
            &&& next matches ShutdownPhase::Telling { next: following }
            &&& following == index + 1
        },
        (phase matches ShutdownPhase::Telling { next: index } && index < entries)
            ==> action is Tell,
        action is Look <==> (phase matches ShutdownPhase::Telling { next: index } && index
            >= entries),
        action is Look ==> next is Waiting,
        action matches ShutdownAction::Sleep { ms } ==> ms == 50 && next is Waiting,
        action is Sleep <==> phase is Waiting && entries > 0,
        action matches ShutdownAction::Exit { code } ==> code == 0 && next is Over,
        action is Exit <==> phase is Waiting && entries == 0 || phase is Over,
{
}

/// A new daemon holds the session that it was given, the adapter that was listed
/// first, and what `share` made of a device map without entries.
pub proof fn lemma_new_daemon<S, A, M, T, F: FnOnce(DeviceMap<T>) -> M>(
    session: S,
    adapters: Vec<A>,
    share: F,
    daemon: Daemon<S, A, M>,
)
    requires
        call_ensures(Daemon::<S, A, M>::new::<T, F>, (session, adapters, share), daemon),
    ensures
        daemon.session == session,
        daemon.adapter == adapters@[0],
        exists|map: DeviceMap<T>|
            map.wf() && map@.dom() == Set::<Seq<char>>::empty() && #[trigger] call_ensures(
                share,
                (map,),
                daemon.device_map,
            ),
{
    let map = choose|map: DeviceMap<T>|
        is_new_map(map) && #[trigger] call_ensures(share, (map,), daemon.device_map);
    assert(map@.dom() == Set::<Seq<char>>::empty());
}

} // verus!
