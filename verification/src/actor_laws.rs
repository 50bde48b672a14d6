//! What holds of every device actor.

use crate::device_actor::{
    ActorAction, ActorError, ActorEvent, DeviceActor, Notification, Phase, DISCOVERY_SECONDS,
    LAST_ATTEMPT,
};
use crate::mitch::{Commands, PACKET_HEADER};
use crate::protocol::DeviceCommand;
use vstd::prelude::*;

verus! {

/// A stretch of an actor's life: what it was at each point, and between two
/// points the event that happened and the action that it asked for.
#[verifier::reject_recursive_types(D)]
#[verifier::reject_recursive_types(A)]
#[verifier::reject_recursive_types(O)]
#[verifier::reject_recursive_types(R)]
#[verifier::reject_recursive_types(E)]
pub struct Run<D, A, O, R, E> {
    pub states: Seq<DeviceActor<D, A, O, R>>,
    pub events: Seq<ActorEvent<D, A, O, R, E>>,
    pub actions: Seq<ActorAction<R, E>>,
}

impl<D, A, O, R, E> Run<D, A, O, R, E> {
    /// Whether each step is one that the actor takes.
    pub open spec fn valid(self) -> bool {
        &&& self.states.len() == self.events.len() + 1
        &&& self.actions.len() == self.events.len()
        &&& forall|i: int| 0 <= i < self.events.len() ==> #[trigger] self.step_at(i)
    }

    /// Whether step number `i` is one that the actor takes.
    pub open spec fn step_at(self, i: int) -> bool {
        crate::device_actor::transition(
            self.states[i],
            self.events[i],
            self.states[i + 1],
            self.actions[i],
        )
    }

    /// The run without its last step.
    pub open spec fn shorter(self) -> Self {
        Run {
            states: self.states.drop_last(),
            events: self.events.drop_last(),
            actions: self.actions.drop_last(),
        }
    }

    pub open spec fn first(self) -> DeviceActor<D, A, O, R> {
        self.states.first()
    }

    pub open spec fn last(self) -> DeviceActor<D, A, O, R> {
        self.states.last()
    }
}

proof fn lemma_shorter<D, A, O, R, E>(run: Run<D, A, O, R, E>)
    requires
        run.valid(),
        run.events.len() > 0,
    ensures
        run.shorter().valid(),
        run.shorter().first() == run.first(),
        run.shorter().last() == run.states[run.events.len() - 1],
        crate::device_actor::transition(
            run.shorter().last(),
            run.events.last(),
            run.last(),
            run.actions.last(),
        ),
{
    let s = run.shorter();
    assert forall|i: int| 0 <= i < s.events.len() implies #[trigger] s.step_at(i) by {
        assert(run.step_at(i));
    }
    assert(run.step_at(run.events.len() - 1));
}

/// An actor keeps its name, and it has an outlet for good once it has one. The
/// outlet is only ever one that was opened for it.
pub proof fn lemma_name_and_outlet_kept<D, A, O, R, E>(
    before: DeviceActor<D, A, O, R>,
    event: ActorEvent<D, A, O, R, E>,
    after: DeviceActor<D, A, O, R>,
    action: ActorAction<R, E>,
)
    requires
        crate::device_actor::transition(before, event, after, action),
    ensures
        after.name == before.name,
        before.outlet is Some ==> after.outlet is Some,
        after.outlet != before.outlet ==> event == ActorEvent::<D, A, O, R, E>::OutletOpened(
            after.outlet->0,
        ),
{
}

/// An actor changes over only to a device that goes by its name.
pub proof fn lemma_device_goes_by_name<D, A, O, R, E>(
    before: DeviceActor<D, A, O, R>,
    event: ActorEvent<D, A, O, R, E>,
    after: DeviceActor<D, A, O, R>,
    action: ActorAction<R, E>,
)
    requires
        crate::device_actor::transition(before, event, after, action),
        after.device != before.device,
    ensures
        crate::device_actor::has_name(after.device, before.name@),
        event matches ActorEvent::Devices(Ok(listed)) && listed@.contains(after.device),
{
    if let ActorEvent::Devices(Ok(listed)) = event {
        let i = choose|i: int|
            {
                &&& 0 <= i < listed@.len()
                &&& after.device == #[trigger] listed@[i]
                &&& crate::device_actor::has_name(listed@[i], before.name@)
            };
        assert(listed@[i] == after.device);
    }
}

/// A sample is pushed exactly when an idle actor with an outlet is notified of a
/// new value of the data characteristic that holds a header. It has one value
/// for each byte after the header.
pub proof fn lemma_push_iff_recording<D, A, O, R, E>(
    before: DeviceActor<D, A, O, R>,
    event: ActorEvent<D, A, O, R, E>,
    after: DeviceActor<D, A, O, R>,
    action: ActorAction<R, E>,
)
    requires
        crate::device_actor::transition(before, event, after, action),
    ensures
        action is Push <==> {
            &&& before.phase is Idle
            &&& event matches ActorEvent::Notified(
                Some(Notification::Characteristic { id, value: Some(data) }),
            )
            &&& before.outlet is Some
            &&& before.data_id is Some
            &&& before.data_id->0@ == id@
            &&& data@.len() >= PACKET_HEADER
        },
        action matches ActorAction::Push(sample) ==> {
            &&& event matches ActorEvent::Notified(
                Some(Notification::Characteristic { id, value: Some(data) }),
            )
            &&& sample@.len() == data@.len() - PACKET_HEADER
            &&& forall|i: int|
                0 <= i < sample@.len() ==> #[trigger] sample@[i] == data@[PACKET_HEADER + i]
        },
        action is Push ==> after == before,
{
}

/// What concerns other devices or other characteristics changes nothing.
pub proof fn lemma_others_ignored<D, A, O, R, E>(
    before: DeviceActor<D, A, O, R>,
    notification: Notification,
    after: DeviceActor<D, A, O, R>,
    action: ActorAction<R, E>,
)
    requires
        before.phase is Idle,
        crate::device_actor::transition(
            before,
            ActorEvent::<D, A, O, R, E>::Notified(Some(notification)),
            after,
            action,
        ),
        match notification {
            Notification::Characteristic { id, .. } => before.data_id is None
                || before.data_id->0@ != id@,
            Notification::Connection { id, .. } => before.device.id@ != id@,
            Notification::Other => true,
        },
    ensures
        after == before,
        action is Await,
{
}

/// An actor that has ended does nothing any more.
pub proof fn lemma_end_is_final<D, A, O, R, E>(
    before: DeviceActor<D, A, O, R>,
    event: ActorEvent<D, A, O, R, E>,
    after: DeviceActor<D, A, O, R>,
    action: ActorAction<R, E>,
)
    requires
        crate::device_actor::transition(before, event, after, action),
        before.phase is Finished || before.phase is Failed,
    ensures
        after == before,
        action is Ignore,
{
}

/// An actor fails exactly when it says so, and then with the error that it was
/// handed, or, where there are no notifications, with a text that quotes it.
pub proof fn lemma_failure_is_told<D, A, O, R, E>(
    before: DeviceActor<D, A, O, R>,
    event: ActorEvent<D, A, O, R, E>,
    after: DeviceActor<D, A, O, R>,
    action: ActorAction<R, E>,
)
    requires
        crate::device_actor::transition(before, event, after, action),
    ensures
        action is Fail <==> after.phase is Failed && !(before.phase is Failed),
        action matches ActorAction::Fail(ActorError::Operation(e)) ==> {
            ||| event == ActorEvent::<D, A, O, R, E>::Done(Err(e))
            ||| event == ActorEvent::<D, A, O, R, E>::DataCharFound(Err(e))
            ||| event == ActorEvent::<D, A, O, R, E>::Read(Err(e))
            ||| event == ActorEvent::<D, A, O, R, E>::Adapters(Err(e))
            ||| event == ActorEvent::<D, A, O, R, E>::Devices(Err(e))
        },
        action matches ActorAction::Fail(ActorError::Notifications(message)) ==> (event
            matches ActorEvent::Subscribed(Err(cause)) && message@
            == crate::device_actor::notifications_message(before.name@, cause@)),
{
}

/// Some operations may fail without harm: taking down a lost connection, reading
/// and notifying again after a reconnection, better connection parameters, and
/// all of the cleaning up. The actor goes on as if they had worked.
pub proof fn lemma_harmless_failures<D, A, O, R, E>(
    before: DeviceActor<D, A, O, R>,
    failed: ActorEvent<D, A, O, R, E>,
    worked: ActorEvent<D, A, O, R, E>,
    after: DeviceActor<D, A, O, R>,
    action: ActorAction<R, E>,
)
    requires
        before.phase is Dropping || before.phase is ReadingResume || before.phase is ResumingNotify
            || before.phase is UpdatingConnection || before.phase is StoppingNotify
            || before.phase is Disconnecting,
        (failed is Done && worked is Done) || (failed is Read && worked is Read),
        crate::device_actor::transition(before, failed, after, action),
    ensures
        crate::device_actor::transition(before, worked, after, action),
        !(after.phase is Failed),
{
}

/// The waits between attempts to reconnect double, from two seconds on.
pub proof fn lemma_backoff_doubles(attempt: int)
    requires
        0 <= attempt < LAST_ATTEMPT - 1,
    ensures
        crate::device_actor::backoff_after(0) == 2,
        crate::device_actor::backoff_after(attempt + 1) == 2 * crate::device_actor::backoff_after(
            attempt,
        ),
{
}

/// An actor sleeps only after a failed attempt to reconnect that was not the
/// last, for as long as the backoff says, and during a discovery. It never
/// sleeps for longer than sixteen seconds.
pub proof fn lemma_sleeps_are_short<D, A, O, R, E>(
    before: DeviceActor<D, A, O, R>,
    event: ActorEvent<D, A, O, R, E>,
    after: DeviceActor<D, A, O, R>,
    action: ActorAction<R, E>,
)
    requires
        before.wf(),
        crate::device_actor::transition(before, event, after, action),
        action is Sleep,
    ensures
        action->seconds <= 16,
        match before.phase {
            Phase::Connecting { attempt } => {
                &&& attempt < LAST_ATTEMPT
                &&& event is Connected
                &&& event->Connected_0 is Err
                &&& action->seconds == crate::device_actor::backoff_after(attempt as int)
            },
            Phase::StartingDiscovery { .. } => action->seconds == DISCOVERY_SECONDS,
            _ => false,
        },
{
}

/// The bounds on the count of attempts hold from one step to the next.
pub proof fn lemma_wf_kept<D, A, O, R, E>(
    before: DeviceActor<D, A, O, R>,
    event: ActorEvent<D, A, O, R, E>,
    after: DeviceActor<D, A, O, R>,
    action: ActorAction<R, E>,
)
    requires
        before.wf(),
        crate::device_actor::transition(before, event, after, action),
    ensures
        after.wf(),
{
}

/// The number of attempts to connect that an actor has begun since its
/// connection was lost, or `None` where it is not reconnecting.
pub open spec fn attempts_begun<R>(phase: Phase<R>) -> Option<int> {
    match phase {
        Phase::Dropping { attempt } => Some(attempt as int),
        Phase::Connecting { attempt } => Some(attempt + 1),
        Phase::BackingOff { attempt, .. } => Some(attempt + 1),
        Phase::ListingAdapters { attempt } => Some(attempt + 1),
        Phase::StartingDiscovery { attempt } => Some(attempt + 1),
        Phase::Discovering { attempt } => Some(attempt + 1),
        Phase::StoppingDiscovery { attempt } => Some(attempt + 1),
        Phase::ListingDevices { attempt } => Some(attempt + 1),
        _ => None,
    }
}

/// How far an actor has come in reconnecting.
pub open spec fn progress<R>(phase: Phase<R>) -> int {
    match phase {
        Phase::Dropping { attempt } => 8 * attempt,
        Phase::Connecting { attempt } => 8 * attempt + 1,
        Phase::BackingOff { attempt, .. } => 8 * attempt + 2,
        Phase::ListingAdapters { attempt } => 8 * attempt + 3,
        Phase::StartingDiscovery { attempt } => 8 * attempt + 4,
        Phase::Discovering { attempt } => 8 * attempt + 5,
        Phase::StoppingDiscovery { attempt } => 8 * attempt + 6,
        Phase::ListingDevices { attempt } => 8 * attempt + 7,
        _ => 40,
    }
}

/// Reconnecting comes to an end: each event that the actor waits for brings it
/// further, and there is only so far to go.
pub proof fn lemma_reconnecting_ends<D, A, O, R, E>(
    before: DeviceActor<D, A, O, R>,
    event: ActorEvent<D, A, O, R, E>,
    after: DeviceActor<D, A, O, R>,
    action: ActorAction<R, E>,
)
    requires
        before.wf(),
        crate::device_actor::transition(before, event, after, action),
        attempts_begun(before.phase) is Some,
        !(action is Ignore),
    ensures
        0 <= progress(before.phase) < progress(after.phase) <= 40,
        attempts_begun(after.phase) is None ==> progress(after.phase) == 40,
{
}

/// The number of times that an attempt to connect was asked for.
pub open spec fn connects<R, E>(actions: Seq<ActorAction<R, E>>) -> int
    decreases actions.len(),
{
    if actions.len() == 0 {
        0
    } else {
        connects(actions.drop_last()) + if actions.last() is Connect {
            1int
        } else {
            0
        }
    }
}

/// An actor that lost its connection tries to connect at most five times before
/// it is connected again, gives up or fails.
pub proof fn lemma_at_most_five_attempts<D, A, O, R, E>(run: Run<D, A, O, R, E>)
    requires
        run.valid(),
        (run.first().phase == (Phase::<R>::Dropping { attempt: 0 })),
        forall|i: int|
            0 <= i < run.events.len() ==> attempts_begun((#[trigger] run.states[i]).phase) is Some,
    ensures
        run.last().wf(),
        connects(run.actions) <= LAST_ATTEMPT + 1,
        attempts_begun(run.last().phase) matches Some(n) ==> connects(run.actions) == n,
    decreases run.events.len(),
{
    if run.events.len() > 0 {
        lemma_shorter(run);
        let s = run.shorter();
        assert forall|i: int| 0 <= i < s.events.len() implies attempts_begun(
            (#[trigger] s.states[i]).phase,
        ) is Some by {
            assert(s.states[i] == run.states[i]);
        }
        lemma_at_most_five_attempts(s);
        assert(s.last() == run.states[run.events.len() - 1]);
    }
}

/// An actor gives up exactly when the last attempt has failed. It then leaves
/// the connection alone, and takes its entry out of the device map all the same.
pub proof fn lemma_giving_up<D, A, O, R, E>(
    before: DeviceActor<D, A, O, R>,
    dbus_name: Option<String>,
    after: DeviceActor<D, A, O, R>,
    action: ActorAction<R, E>,
    attempt: u8,
)
    requires
        before.wf(),
        (before.phase == (Phase::<R>::Connecting { attempt })),
        crate::device_actor::transition(
            before,
            ActorEvent::<D, A, O, R, E>::Connected(Err(dbus_name)),
            after,
            action,
        ),
    ensures
        after.phase is StoppingNotify <==> attempt == LAST_ATTEMPT,
        after.phase is StoppingNotify ==> !after.connected,
        !(after.phase is StoppingNotify) ==> after.phase is BackingOff,
{
}

/// An actor starts to clean up exactly when it is idle and is told to shut down
/// or can get no further command or notification, and when its last attempt to
/// reconnect has failed.
pub proof fn lemma_clean_up_starts<D, A, O, R, E>(
    before: DeviceActor<D, A, O, R>,
    event: ActorEvent<D, A, O, R, E>,
    after: DeviceActor<D, A, O, R>,
    action: ActorAction<R, E>,
)
    requires
        crate::device_actor::transition(before, event, after, action),
    ensures
        action is StopNotify <==> {
            ||| before.phase is Idle && {
                ||| event matches ActorEvent::Command(Some(DeviceCommand::Shutdown))
                ||| event matches ActorEvent::Command(None)
                ||| event matches ActorEvent::Notified(None)
            }
            ||| (before.phase == Phase::<R>::Connecting { attempt: LAST_ATTEMPT }) && (
            event matches ActorEvent::Connected(Err(_)))
        },
        action is StopNotify ==> after.phase is StoppingNotify && after.connected == (
        before.connected && before.phase is Idle),
{
}

/// Cleaning up has notifications stopped, the connection taken down unless it
/// was given up, and the entry removed, in this order, whatever fails on the
/// way.
pub proof fn lemma_clean_up<D, A, O, R, E>(run: Run<D, A, O, R, E>)
    requires
        run.valid(),
        run.events.len() >= 3,
        run.actions[0] is StopNotify,
        run.events[1] is Done,
        run.states[1].connected ==> {
            &&& run.events.len() == 4
            &&& run.events[2] is Done
            &&& run.events[3] is Removed
        },
        !run.states[1].connected ==> {
            &&& run.events.len() == 3
            &&& run.events[2] is Removed
        },
    ensures
        run.states[1].connected ==> run.actions == seq![
            ActorAction::<R, E>::StopNotify,
            ActorAction::<R, E>::Disconnect,
            ActorAction::<R, E>::RemoveEntry,
            ActorAction::<R, E>::Finish,
        ],
        !run.states[1].connected ==> run.actions == seq![
            ActorAction::<R, E>::StopNotify,
            ActorAction::<R, E>::RemoveEntry,
            ActorAction::<R, E>::Finish,
        ],
        run.last().phase is Finished,
{
    assert(run.step_at(0));
    assert(run.step_at(1));
    assert(run.step_at(2));
    if run.states[1].connected {
        assert(run.step_at(3));
    }
}

/// Telling an idle actor to record opens an outlet for the device's stream, has
/// the device stream, and has it notify of its data. The actor is then idle
/// again, with the outlet.
pub proof fn lemma_recording_starts<D, A, O, R, E>(run: Run<D, A, O, R, E>)
    requires
        run.valid(),
        run.first().phase is Idle,
        run.events.len() == 5,
        run.events[0] matches ActorEvent::Command(Some(DeviceCommand::StartRecording { .. })),
        run.events[1] is OutletOpened,
        run.events[2] matches ActorEvent::Done(Ok(_)),
        run.events[3] matches ActorEvent::Read(Ok(_)),
        run.events[4] matches ActorEvent::Done(Ok(_)),
    ensures
        run.last() == (DeviceActor { outlet: Some(run.events[1]->OutletOpened_0), ..run.first() }),
        run.actions[0] matches ActorAction::OpenOutlet(stream) && crate::mitch::is_stream_of(
            stream,
            run.first().name,
        ),
        run.actions.skip(1) == seq![
            ActorAction::<R, E>::Write(Commands::StartPressureStream),
            ActorAction::<R, E>::ReadCommandChar,
            ActorAction::<R, E>::StartNotify,
            ActorAction::<R, E>::Await,
        ],
{
    assert(run.step_at(0));
    assert(run.step_at(1));
    assert(run.step_at(2));
    assert(run.step_at(3));
    assert(run.step_at(4));
}

/// Asking an idle actor for its status has the device tell its charge, and the
/// answer goes to the one who asked. The actor is then what it was.
pub proof fn lemma_status_is_answered<D, A, O, R, E>(
    run: Run<D, A, O, R, E>,
    tx: R,
    reply: Vec<u8>,
)
    requires
        run.valid(),
        run.first().phase is Idle,
        run.events.len() == 3,
        run.events[0] == ActorEvent::<D, A, O, R, E>::Command(Some(DeviceCommand::Status { tx })),
        run.events[1] matches ActorEvent::Done(Ok(_)),
        run.events[2] == ActorEvent::<D, A, O, R, E>::Read(Ok(reply)),
    ensures
        run.last() == run.first(),
        run.actions[0] == ActorAction::<R, E>::Write(Commands::GetPower),
        run.actions[1] == ActorAction::<R, E>::ReadCommandChar,
        run.actions[2] matches ActorAction::Reply { tx: to, status } && to == tx && status.name
            == run.first().name && status.battery_charge == crate::mitch::charge_in(reply@),
        run.actions[2] matches ActorAction::Reply { status, .. } && (reply@[3] == 0
            ==> status.battery_charge == Some(reply@[4])) && (reply@[3] != 0
            ==> status.battery_charge is None),
{
    assert(run.step_at(0));
    assert(run.step_at(1));
    assert(run.step_at(2));
}

/// An actor that was recording when it lost its connection has the device
/// stream and notify again once it is connected, and goes on recording into the
/// same outlet, whether or not the read and the notifications work.
pub proof fn lemma_recording_resumes<D, A, O, R, E>(run: Run<D, A, O, R, E>)
    requires
        run.valid(),
        run.first().phase is Connecting,
        run.first().outlet is Some,
        run.events.len() == 5,
        run.events[0] matches ActorEvent::Connected(Ok(_)),
        run.events[1] matches ActorEvent::Done(Ok(_)),
        run.events[2] is Read,
        run.events[3] is Done,
        run.events[4] is Done,
    ensures
        run.last() == run.first().in_phase(Phase::Idle),
        run.actions == seq![
            ActorAction::<R, E>::Write(Commands::StartPressureStream),
            ActorAction::<R, E>::ReadCommandChar,
            ActorAction::<R, E>::StartNotify,
            ActorAction::<R, E>::UpdateConnection,
            ActorAction::<R, E>::Await,
        ],
{
    assert(run.step_at(0));
    assert(run.step_at(1));
    assert(run.step_at(2));
    assert(run.step_at(3));
    assert(run.step_at(4));
}

/// An actor that was not recording is idle again once it is connected.
pub proof fn lemma_reconnecting_without_recording<D, A, O, R, E>(run: Run<D, A, O, R, E>)
    requires
        run.valid(),
        run.first().phase is Connecting,
        run.first().outlet is None,
        run.events.len() == 2,
        run.events[0] matches ActorEvent::Connected(Ok(_)),
        run.events[1] is Done,
    ensures
        run.last() == run.first().in_phase(Phase::Idle),
        run.actions == seq![
            ActorAction::<R, E>::UpdateConnection,
            ActorAction::<R, E>::Await,
        ],
{
    assert(run.step_at(0));
    assert(run.step_at(1));
}

/// Over any stretch of its life an actor keeps its name and, once it has one, an
/// outlet.
pub proof fn lemma_run_keeps_name_and_outlet<D, A, O, R, E>(run: Run<D, A, O, R, E>)
    requires
        run.valid(),
    ensures
        run.last().name == run.first().name,
        run.first().outlet is Some ==> run.last().outlet is Some,
        run.first().wf() ==> run.last().wf(),
    decreases run.events.len(),
{
    if run.events.len() > 0 {
        lemma_shorter(run);
        lemma_run_keeps_name_and_outlet(run.shorter());
        if run.shorter().last().wf() {
            lemma_wf_kept(
                run.shorter().last(),
                run.events.last(),
                run.last(),
                run.actions.last(),
            );
        }
    }
}

/// How long an actor was asked to sleep in all, in seconds.
pub open spec fn slept<R, E>(actions: Seq<ActorAction<R, E>>) -> int
    decreases actions.len(),
{
    if actions.len() == 0 {
        0
    } else {
        slept(actions.drop_last()) + match actions.last() {
            ActorAction::Sleep { seconds } => seconds as int,
            _ => 0,
        }
    }
}

/// The waits after the attempts before number `attempt`, in seconds.
pub open spec fn backoffs_before(attempt: int) -> int
    decreases attempt,
{
    if attempt <= 0 {
        0
    } else {
        backoffs_before(attempt - 1) + crate::device_actor::backoff_after(attempt - 1)
    }
}

/// How long an actor that lost its connection may have slept by now, in seconds.
pub open spec fn sleep_bound<R>(phase: Phase<R>) -> int {
    match phase {
        Phase::Dropping { attempt } => backoffs_before(attempt as int) + DISCOVERY_SECONDS
            * attempt,
        Phase::Connecting { attempt } => backoffs_before(attempt as int) + DISCOVERY_SECONDS
            * attempt,
        Phase::BackingOff { attempt, .. } => backoffs_before(attempt + 1) + DISCOVERY_SECONDS
            * attempt,
        Phase::ListingAdapters { attempt } => backoffs_before(attempt + 1) + DISCOVERY_SECONDS
            * attempt,
        Phase::StartingDiscovery { attempt } => backoffs_before(attempt + 1) + DISCOVERY_SECONDS
            * attempt,
        Phase::Discovering { attempt } => backoffs_before(attempt + 1) + DISCOVERY_SECONDS * (
        attempt + 1),
        Phase::StoppingDiscovery { attempt } => backoffs_before(attempt + 1) + DISCOVERY_SECONDS
            * (attempt + 1),
        Phase::ListingDevices { attempt } => backoffs_before(attempt + 1) + DISCOVERY_SECONDS * (
        attempt + 1),
        _ => 50,
    }
}

proof fn lemma_backoffs()
    ensures
        backoffs_before(0) == 0,
        backoffs_before(1) == 2,
        backoffs_before(2) == 6,
        backoffs_before(3) == 14,
        backoffs_before(4) == 30,
{
    reveal_with_fuel(backoffs_before, 5);
}

/// An actor that lost its connection sleeps for at most fifty seconds in all
/// before it is connected again, gives up or fails.
pub proof fn lemma_sleep_is_bounded<D, A, O, R, E>(run: Run<D, A, O, R, E>)
    requires
        run.valid(),
        (run.first().phase == (Phase::<R>::Dropping { attempt: 0 })),
        forall|i: int|
            0 <= i < run.events.len() ==> attempts_begun((#[trigger] run.states[i]).phase) is Some,
    ensures
        slept(run.actions) <= sleep_bound(run.last().phase) <= 50,
    decreases run.events.len(),
{
    lemma_backoffs();
    lemma_at_most_five_attempts(run);
    if run.events.len() > 0 {
        lemma_shorter(run);
        let s = run.shorter();
        assert forall|i: int| 0 <= i < s.events.len() implies attempts_begun(
            (#[trigger] s.states[i]).phase,
        ) is Some by {
            assert(s.states[i] == run.states[i]);
        }
        lemma_sleep_is_bounded(s);
        lemma_at_most_five_attempts(s);
        assert(s.last() == run.states[run.events.len() - 1]);
    }
}

/// The samples that were pushed, in order.
pub open spec fn pushed<R, E>(actions: Seq<ActorAction<R, E>>) -> Seq<Seq<i16>>
    decreases actions.len(),
{
    if actions.len() == 0 {
        Seq::empty()
    } else {
        match actions.last() {
            ActorAction::Push(sample) => pushed(actions.drop_last()).push(sample@),
            _ => pushed(actions.drop_last()),
        }
    }
}

/// The data in an event that an actor in this state has to record, if any.
pub open spec fn data_to_record<D, A, O, R, E>(
    actor: DeviceActor<D, A, O, R>,
    event: ActorEvent<D, A, O, R, E>,
) -> Option<Seq<u8>> {
    match event {
        ActorEvent::Notified(
            Some(Notification::Characteristic { id, value: Some(data) }),
        ) => if actor.phase is Idle && actor.records(id) && data@.len() >= PACKET_HEADER {
            Some(data@)
        } else {
            None
        },
        _ => None,
    }
}

/// The values of all data that an actor has to record during a run, in order.
pub open spec fn recorded<D, A, O, R, E>(run: Run<D, A, O, R, E>) -> Seq<Seq<i16>>
    decreases run.events.len(),
{
    if run.events.len() == 0 {
        Seq::empty()
    } else {
        match data_to_record(run.states[run.events.len() - 1], run.events.last()) {
            Some(data) => recorded(run.shorter()).push(crate::mitch::byte_values(data)),
            None => recorded(run.shorter()),
        }
    }
}

/// The samples reach the outlet in the order in which the data came: none is
/// lost, none comes twice, and nothing else is pushed.
pub proof fn lemma_samples_in_order<D, A, O, R, E>(run: Run<D, A, O, R, E>)
    requires
        run.valid(),
    ensures
        pushed(run.actions) == recorded(run),
    decreases run.events.len(),
{
    if run.events.len() > 0 {
        lemma_shorter(run);
        lemma_samples_in_order(run.shorter());
    }
}

/// The number of times that notifications were to be stopped.
pub open spec fn stops<R, E>(actions: Seq<ActorAction<R, E>>) -> int
    decreases actions.len(),
{
    if actions.len() == 0 {
        0
    } else {
        stops(actions.drop_last()) + if actions.last() is StopNotify {
            1int
        } else {
            0
        }
    }
}

/// The number of times that the entry was to be taken out of the device map.
pub open spec fn removals<R, E>(actions: Seq<ActorAction<R, E>>) -> int
    decreases actions.len(),
{
    if actions.len() == 0 {
        0
    } else {
        removals(actions.drop_last()) + if actions.last() is RemoveEntry {
            1int
        } else {
            0
        }
    }
}

/// An actor cleans up once or not at all: one that has finished has asked once
/// for its notifications to be stopped and once for its entry to be taken out,
/// and one that has failed, or still runs, has asked for neither.
pub proof fn lemma_cleans_up_once<D, A, O, R, E>(run: Run<D, A, O, R, E>)
    requires
        run.valid(),
        run.first().phase is Created,
    ensures
        match run.last().phase {
            Phase::Finished => stops(run.actions) == 1 && removals(run.actions) == 1,
            Phase::Removing => stops(run.actions) == 1 && removals(run.actions) == 1,
            Phase::StoppingNotify => stops(run.actions) == 1 && removals(run.actions) == 0,
            Phase::Disconnecting => stops(run.actions) == 1 && removals(run.actions) == 0,
            _ => stops(run.actions) == 0 && removals(run.actions) == 0,
        },
    decreases run.events.len(),
{
    if run.events.len() > 0 {
        lemma_shorter(run);
        lemma_cleans_up_once(run.shorter());
    }
}

/// The number of rediscoveries that were begun.
pub open spec fn rediscoveries<R, E>(actions: Seq<ActorAction<R, E>>) -> int
    decreases actions.len(),
{
    if actions.len() == 0 {
        0
    } else {
        rediscoveries(actions.drop_last()) + if actions.last() is ListAdapters {
            1int
        } else {
            0
        }
    }
}

/// How many rediscoveries an actor that lost its connection may have begun.
pub open spec fn rediscovery_bound<R>(phase: Phase<R>) -> int {
    match phase {
        Phase::Dropping { attempt } => attempt as int,
        Phase::Connecting { attempt } => attempt as int,
        Phase::BackingOff { attempt, .. } => attempt as int,
        Phase::ListingAdapters { attempt } => attempt + 1,
        Phase::StartingDiscovery { attempt } => attempt + 1,
        Phase::Discovering { attempt } => attempt + 1,
        Phase::StoppingDiscovery { attempt } => attempt + 1,
        Phase::ListingDevices { attempt } => attempt + 1,
        _ => LAST_ATTEMPT as int,
    }
}

/// An actor that lost its connection begins at most four rediscoveries before it
/// is connected again, gives up or fails.
pub proof fn lemma_at_most_four_rediscoveries<D, A, O, R, E>(run: Run<D, A, O, R, E>)
    requires
        run.valid(),
        (run.first().phase == (Phase::<R>::Dropping { attempt: 0 })),
        forall|i: int|
            0 <= i < run.events.len() ==> attempts_begun((#[trigger] run.states[i]).phase) is Some,
    ensures
        rediscoveries(run.actions) <= rediscovery_bound(run.last().phase) <= LAST_ATTEMPT,
    decreases run.events.len(),
{
    lemma_at_most_five_attempts(run);
    if run.events.len() > 0 {
        lemma_shorter(run);
        let s = run.shorter();
        assert forall|i: int| 0 <= i < s.events.len() implies attempts_begun(
            (#[trigger] s.states[i]).phase,
        ) is Some by {
            assert(s.states[i] == run.states[i]);
        }
        lemma_at_most_four_rediscoveries(s);
        lemma_at_most_five_attempts(s);
        assert(s.last() == run.states[run.events.len() - 1]);
    }
}

} // verus!
