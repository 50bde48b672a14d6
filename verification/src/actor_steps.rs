//! When a device actor asks for what, and what changes of it.

use crate::device_actor::{
    ActorAction, ActorError, ActorEvent, DeviceActor, DeviceInfo, Notification, Phase,
};
use crate::mitch::{Commands, COMMAND_CHAR, DATA_CHAR, SERVICE};
use crate::protocol::DeviceCommand;
use vstd::arithmetic::power2::{lemma2_to64, pow2};
use vstd::prelude::*;

verus! {

/// Whether an actor that was `before` may become `after` and ask for `action` when
/// `event` happens.
pub open spec fn steps<D, A, O, R, E>(
    before: DeviceActor<D, A, O, R>,
    event: ActorEvent<D, A, O, R, E>,
    after: DeviceActor<D, A, O, R>,
    action: ActorAction<R, E>,
) -> bool {
    call_ensures(DeviceActor::<D, A, O, R>::step::<E>, (before, event), (after, action))
}

/// An actor is well formed where its attempt to reconnect, counted from zero, is
/// one of five, and one of the first four where it comes after a failure.
pub proof fn lemma_well_formed<D, A, O, R>(actor: DeviceActor<D, A, O, R>)
    ensures
        actor.wf() <==> (match actor.phase {
            Phase::Dropping { attempt } => attempt < 5,
            Phase::Connecting { attempt } => attempt < 5,
            Phase::BackingOff { attempt, .. } => attempt < 4,
            Phase::ListingAdapters { attempt } => attempt < 4,
            Phase::StartingDiscovery { attempt } => attempt < 4,
            Phase::Discovering { attempt } => attempt < 4,
            Phase::StoppingDiscovery { attempt } => attempt < 4,
            Phase::ListingDevices { attempt } => attempt < 4,
            _ => true,
        }),
{
}

/// An actor takes in only what it waits for. Anything else changes nothing of it,
/// and it goes on waiting.
pub proof fn lemma_waits<D, A, O, R, E>(
    before: DeviceActor<D, A, O, R>,
    event: ActorEvent<D, A, O, R, E>,
    after: DeviceActor<D, A, O, R>,
    action: ActorAction<R, E>,
)
    requires
        steps(before, event, after, action),
    ensures
        action is Ignore <==> !(match event {
            ActorEvent::Started => before.phase is Created,
            ActorEvent::Subscribed(_) => before.phase is Subscribing,
            ActorEvent::DataCharFound(_) => before.phase is FindingDataChar,
            ActorEvent::Command(_) => before.phase is Idle,
            ActorEvent::Notified(_) => before.phase is Idle,
            ActorEvent::OutletOpened(_) => before.phase is OpeningOutlet,
            ActorEvent::Read(_) => before.phase is ReadingStart || before.phase is ReadingPower
                || before.phase is ReadingResume,
            ActorEvent::Connected(_) => before.phase is Connecting,
            ActorEvent::Slept => before.phase is BackingOff || before.phase is Discovering,
            ActorEvent::Adapters(_) => before.phase is ListingAdapters,
            ActorEvent::Devices(_) => before.phase is ListingDevices,
            ActorEvent::Removed => before.phase is Removing,
            ActorEvent::Done(_) => before.phase is FindingService || before.phase
                is FindingCommandChar || before.phase is WritingStart || before.phase
                is EnablingNotify || before.phase is WritingPower || before.phase is Dropping
                || before.phase is StartingDiscovery || before.phase is StoppingDiscovery
                || before.phase is WritingResume || before.phase is ResumingNotify || before.phase
                is UpdatingConnection || before.phase is StoppingNotify || before.phase
                is Disconnecting,
        }),
        action is Ignore ==> after == before,
{
}

/// What an actor holds changes only by what brings something new: the adapter by a
/// list of adapters, the identifier of the data characteristic by finding it, the
/// outlet by opening one, the device by a rediscovery. It takes its connection for
/// given up exactly when the fifth attempt to reconnect has failed. Its name never
/// changes.
pub proof fn lemma_what_changes<D, A, O, R, E>(
    before: DeviceActor<D, A, O, R>,
    event: ActorEvent<D, A, O, R, E>,
    after: DeviceActor<D, A, O, R>,
    action: ActorAction<R, E>,
)
    requires
        steps(before, event, after, action),
    ensures
        before.wf() ==> after.wf(),
        after.name == before.name,
        after.adapter == (match event {
            ActorEvent::Adapters(Ok(adapters)) if before.phase is ListingAdapters => Some(
                adapters@[0],
            ),
            _ => before.adapter,
        }),
        after.data_id == (match event {
            ActorEvent::DataCharFound(Ok(id)) if before.phase is FindingDataChar => Some(id),
            _ => before.data_id,
        }),
        after.outlet == (match event {
            ActorEvent::OutletOpened(outlet) if before.phase is OpeningOutlet => Some(outlet),
            _ => before.outlet,
        }),
        after.connected == (before.connected && !(before.phase == Phase::<R>::Connecting {
            attempt: 4,
        } && (event matches ActorEvent::Connected(Err(_))))),
        !(before.phase is ListingDevices && (event matches ActorEvent::Devices(Ok(_))))
            ==> after.device == before.device,
{
}

/// After a rediscovery an actor goes on with the last of the listed devices that
/// goes by its name, and with the device that it had where none does.
pub proof fn lemma_rediscovered_device<D, A, O, R, E>(
    before: DeviceActor<D, A, O, R>,
    listed: Vec<DeviceInfo<D>>,
    after: DeviceActor<D, A, O, R>,
    action: ActorAction<R, E>,
    i: int,
)
    requires
        before.phase is ListingDevices,
        steps(before, ActorEvent::<D, A, O, R, E>::Devices(Ok(listed)), after, action),
    ensures
        (forall|j: int|
            0 <= j < listed@.len() ==> (#[trigger] listed@[j]).name is None
                || listed@[j].name->0@ != before.name@) ==> after.device == before.device,
        (0 <= i < listed@.len() && listed@[i].name is Some && listed@[i].name->0@ == before.name@
            && forall|j: int|
            i < j < listed@.len() ==> (#[trigger] listed@[j]).name is None || listed@[j].name->0@
                != before.name@) ==> after.device == listed@[i],
{
    if 0 <= i < listed@.len() && listed@[i].name is Some && listed@[i].name->0@ == before.name@ {
        assert(crate::device_actor::has_name(listed@[i], before.name@));
    }
    if forall|j: int|
        0 <= j < listed@.len() ==> (#[trigger] listed@[j]).name is None || listed@[j].name->0@
            != before.name@ {
        assert(forall|j: int|
            0 <= j < listed@.len() ==> !crate::device_actor::has_name(
                #[trigger] listed@[j],
                before.name@,
            ));
    }
}

/// An actor that is spawned has notifications opened, then finds the service, then
/// the command characteristic, then the data characteristic, and then waits.
pub proof fn lemma_when_setting_up<D, A, O, R, E>(
    before: DeviceActor<D, A, O, R>,
    event: ActorEvent<D, A, O, R, E>,
    after: DeviceActor<D, A, O, R>,
    action: ActorAction<R, E>,
)
    requires
        steps(before, event, after, action),
    ensures
        action is Subscribe <==> before.phase is Created && event is Started,
        action is Subscribe ==> after.phase is Subscribing,
        action is FindService <==> before.phase is Subscribing && (event
            matches ActorEvent::Subscribed(Ok(_))),
        action matches ActorAction::FindService { uuid } ==> uuid == SERVICE && after.phase
            is FindingService,
        action is FindCharacteristic <==> (before.phase is FindingService || before.phase
            is FindingCommandChar) && (event matches ActorEvent::Done(Ok(_))),
        action matches ActorAction::FindCharacteristic { uuid } ==> if before.phase
            is FindingService {
            uuid == COMMAND_CHAR && after.phase is FindingCommandChar
        } else {
            uuid == DATA_CHAR && after.phase is FindingDataChar
        },
        before.phase is FindingDataChar && (event matches ActorEvent::DataCharFound(Ok(_)))
            ==> action is Await && after.phase is Idle,
{
}

/// An outlet is opened exactly when an idle actor is told to record, for a stream
/// that goes by the actor's name, whatever name it was told. Once it is open, the
/// device is told to stream, the reply is read, and the device is told to notify;
/// then the actor waits.
pub proof fn lemma_when_recording_starts<D, A, O, R, E>(
    before: DeviceActor<D, A, O, R>,
    event: ActorEvent<D, A, O, R, E>,
    after: DeviceActor<D, A, O, R>,
    action: ActorAction<R, E>,
)
    requires
        steps(before, event, after, action),
    ensures
        action is OpenOutlet <==> before.phase is Idle && (event matches ActorEvent::Command(
            Some(DeviceCommand::StartRecording { .. }),
        )),
        action matches ActorAction::OpenOutlet(stream) ==> {
            &&& after.phase is OpeningOutlet
            &&& stream.name@ == before.name@
            &&& stream.source_id@ == before.name@
            &&& stream.stream_type@ == "Pressure"@
            &&& stream.channel_count == 16
            &&& stream.rate_hz == 50
            &&& stream.chunk_size == 1
            &&& stream.max_buffered == 360
        },
        before.phase is OpeningOutlet && event is OutletOpened ==> after.phase is WritingStart
            && action == ActorAction::<R, E>::Write(Commands::StartPressureStream),
        before.phase is WritingStart && (event matches ActorEvent::Done(Ok(_))) ==> after.phase
            is ReadingStart && action is ReadCommandChar,
        before.phase is ReadingStart && (event matches ActorEvent::Read(Ok(_))) ==> after.phase
            is EnablingNotify && action is StartNotify,
        before.phase is EnablingNotify && (event matches ActorEvent::Done(Ok(_))) ==> after.phase
            is Idle && action is Await,
{
}

/// The device is told to stream exactly when an outlet was opened, and when it is
/// connected again while there is an outlet. It is asked for its charge exactly
/// when an idle actor is asked for its status. The command characteristic is read
/// exactly when either was written.
pub proof fn lemma_when_device_is_told<D, A, O, R, E>(
    before: DeviceActor<D, A, O, R>,
    event: ActorEvent<D, A, O, R, E>,
    after: DeviceActor<D, A, O, R>,
    action: ActorAction<R, E>,
)
    requires
        steps(before, event, after, action),
    ensures
        action == ActorAction::<R, E>::Write(Commands::StartPressureStream) <==> {
            ||| before.phase is OpeningOutlet && event is OutletOpened
            ||| before.phase is Connecting && before.outlet is Some && (event
                matches ActorEvent::Connected(Ok(_)))
        },
        action == ActorAction::<R, E>::Write(Commands::GetPower) <==> before.phase is Idle && (
        event matches ActorEvent::Command(Some(DeviceCommand::Status { .. }))),
        action is ReadCommandChar <==> (before.phase is WritingStart || before.phase
            is WritingPower || before.phase is WritingResume) && (event
            matches ActorEvent::Done(Ok(_))),
        action is StartNotify <==> {
            ||| before.phase is ReadingStart && (event matches ActorEvent::Read(Ok(_)))
            ||| before.phase is ReadingResume && event is Read
        },
{
}

/// A status is told exactly when the reply to `GetPower` was read. It goes to the
/// one who asked, under the actor's name, with the fifth byte of the reply as the
/// charge where the fourth byte is zero, and with no charge where it is not.
pub proof fn lemma_when_status_is_told<D, A, O, R, E>(
    before: DeviceActor<D, A, O, R>,
    event: ActorEvent<D, A, O, R, E>,
    after: DeviceActor<D, A, O, R>,
    action: ActorAction<R, E>,
)
    requires
        steps(before, event, after, action),
    ensures
        event matches ActorEvent::Command(Some(DeviceCommand::Status { tx })) ==> before.phase
            is Idle ==> after.phase == (Phase::<R>::WritingPower { tx }),
        before.phase matches Phase::WritingPower { tx } ==> (event
            matches ActorEvent::Done(Ok(_))) ==> after.phase == (Phase::<R>::ReadingPower { tx }),
        action is Reply <==> before.phase is ReadingPower && (event
            matches ActorEvent::Read(Ok(_))),
        action matches ActorAction::Reply { tx, status } ==> {
            &&& after.phase is Idle
            &&& before.phase == (Phase::<R>::ReadingPower { tx })
            &&& status.name@ == before.name@
            &&& event matches ActorEvent::Read(Ok(reply))
            &&& reply@[3] == 0 ==> status.battery_charge == Some(reply@[4])
            &&& reply@[3] != 0 ==> status.battery_charge is None
        },
{
}

/// A sample is pushed exactly when an idle actor with an outlet is notified of a
/// new value, of at least four bytes, of the data characteristic. Its values are
/// the bytes after the fourth, each as a number from 0 to 255.
pub proof fn lemma_when_pushing<D, A, O, R, E>(
    before: DeviceActor<D, A, O, R>,
    event: ActorEvent<D, A, O, R, E>,
    after: DeviceActor<D, A, O, R>,
    action: ActorAction<R, E>,
)
    requires
        steps(before, event, after, action),
    ensures
        action is Push <==> {
            &&& before.phase is Idle
            &&& before.outlet is Some
            &&& event matches ActorEvent::Notified(
                Some(Notification::Characteristic { id, value: Some(data) }),
            )
            &&& before.data_id matches Some(data_id)
            &&& data_id@ == id@
            &&& data@.len() >= 4
        },
        action matches ActorAction::Push(sample) ==> {
            &&& after.phase is Idle
            &&& event matches ActorEvent::Notified(
                Some(Notification::Characteristic { id, value: Some(data) }),
            )
            &&& sample@.len() == data@.len() - 4
            &&& forall|i: int| 4 <= i < data@.len() ==> sample@[i - 4] as int == #[trigger] data@[i]
        },
{
}

/// A connection is taken down exactly when it was lost, before each further attempt
/// to reconnect, and while cleaning up unless it was given up. A device is
/// connected exactly when its lost connection was taken down, whether that worked
/// or not. Attempts count up by one.
pub proof fn lemma_when_connecting<D, A, O, R, E>(
    before: DeviceActor<D, A, O, R>,
    event: ActorEvent<D, A, O, R, E>,
    after: DeviceActor<D, A, O, R>,
    action: ActorAction<R, E>,
)
    requires
        before.wf(),
        steps(before, event, after, action),
    ensures
        action is Disconnect <==> {
            ||| before.phase is Idle && (event matches ActorEvent::Notified(
                Some(Notification::Connection { id, connected: false }),
            ) && id@ == before.device.id@)
            ||| (before.phase matches Phase::BackingOff { object_lost: false, .. }) && event is Slept
            ||| before.phase is ListingDevices && (event matches ActorEvent::Devices(Ok(_)))
            ||| before.phase is StoppingNotify && before.connected && event is Done
        },
        action is Disconnect ==> (match before.phase {
            Phase::Idle => after.phase == (Phase::<R>::Dropping { attempt: 0 }),
            Phase::BackingOff { attempt, .. } => after.phase matches Phase::Dropping {
                attempt: following,
            } && following == attempt + 1,
            Phase::ListingDevices { attempt } => after.phase matches Phase::Dropping {
                attempt: following,
            } && following == attempt + 1,
            _ => after.phase is Disconnecting,
        }),
        action is Connect <==> before.phase is Dropping && event is Done,
        action is Connect ==> (before.phase matches Phase::Dropping { attempt } && after.phase == (
        Phase::<R>::Connecting { attempt })),
{
}

/// After a failed attempt to reconnect that is not the fifth, an actor sleeps, for
/// two seconds after the first and twice as long after each that follows. It
/// remembers that the device is lost exactly where the error has a name that holds
/// "UnknownObject".
pub proof fn lemma_when_backing_off<D, A, O, R, E>(
    before: DeviceActor<D, A, O, R>,
    dbus_name: Option<String>,
    after: DeviceActor<D, A, O, R>,
    action: ActorAction<R, E>,
    attempt: u8,
    front: Seq<char>,
    back: Seq<char>,
)
    requires
        before.wf(),
        (before.phase == (Phase::<R>::Connecting { attempt })),
        steps(before, ActorEvent::<D, A, O, R, E>::Connected(Err(dbus_name)), after, action),
    ensures
        attempt < 4 ==> {
            &&& action matches ActorAction::Sleep { seconds }
            &&& seconds == pow2((attempt + 1) as nat)
            &&& after.phase matches Phase::BackingOff { attempt: kept, object_lost }
            &&& kept == attempt
            &&& dbus_name is None ==> !object_lost
            &&& (dbus_name is Some && dbus_name->0@ == front + "UnknownObject"@ + back)
                ==> object_lost
            &&& object_lost ==> dbus_name is Some && exists|a: Seq<char>, b: Seq<char>|
                dbus_name->0@ == #[trigger] (a + "UnknownObject"@ + b)
        },
        attempt == 4 ==> action is StopNotify && after.phase is StoppingNotify,
{
    lemma2_to64();
    if let Some(name) = dbus_name {
        crate::device_actor::lemma_lost_name(name@, front, back);
    }
}

/// A rediscovery begins exactly when an actor wakes from a wait after which it
/// knows that the device is lost, whatever else the actor holds. It lists the
/// adapters, has the first one discover for five seconds, and lists the devices.
/// Nothing but that and the waits between attempts makes an actor sleep.
pub proof fn lemma_when_rediscovering<D, A, O, R, E>(
    before: DeviceActor<D, A, O, R>,
    event: ActorEvent<D, A, O, R, E>,
    after: DeviceActor<D, A, O, R>,
    action: ActorAction<R, E>,
)
    requires
        before.wf(),
        steps(before, event, after, action),
    ensures
        action is ListAdapters <==> (before.phase matches Phase::BackingOff {
            object_lost: true,
            ..
        }) && event is Slept,
        action is ListAdapters ==> (before.phase matches Phase::BackingOff { attempt, .. }
            && after.phase == (Phase::<R>::ListingAdapters { attempt })),
        action is StartDiscovery <==> before.phase is ListingAdapters && (event
            matches ActorEvent::Adapters(Ok(_))),
        action is StartDiscovery ==> (before.phase matches Phase::ListingAdapters { attempt }
            && after.phase == (Phase::<R>::StartingDiscovery { attempt })),
        action is Sleep <==> {
            ||| before.phase is StartingDiscovery && (event matches ActorEvent::Done(Ok(_)))
            ||| (before.phase matches Phase::Connecting { attempt } && attempt < 4) && (
            event matches ActorEvent::Connected(Err(_)))
        },
        (before.phase matches Phase::StartingDiscovery { attempt } && action is Sleep) ==> action
            == (ActorAction::<R, E>::Sleep { seconds: 5 }) && (
        after.phase matches Phase::Discovering { attempt: kept } && kept
            == before.phase->StartingDiscovery_attempt),
        action is StopDiscovery <==> before.phase is Discovering && event is Slept,
        action is StopDiscovery ==> (before.phase matches Phase::Discovering { attempt }
            && after.phase == (Phase::<R>::StoppingDiscovery { attempt })),
        action is ListDevices <==> before.phase is StoppingDiscovery && (event
            matches ActorEvent::Done(Ok(_))),
        action is ListDevices ==> (before.phase matches Phase::StoppingDiscovery { attempt }
            && after.phase == (Phase::<R>::ListingDevices { attempt })),
{
}

/// Once a device is connected again, one that was recording is told to stream, its
/// reply is read and it is told to notify, whether the read and the notifications
/// work or not. Better connection parameters are asked for after that, or at once
/// where nothing was recorded; then the actor waits, whether it gets them or not.
pub proof fn lemma_when_connected_again<D, A, O, R, E>(
    before: DeviceActor<D, A, O, R>,
    event: ActorEvent<D, A, O, R, E>,
    after: DeviceActor<D, A, O, R>,
    action: ActorAction<R, E>,
)
    requires
        steps(before, event, after, action),
    ensures
        action is UpdateConnection <==> {
            ||| before.phase is Connecting && before.outlet is None && (event
                matches ActorEvent::Connected(Ok(_)))
            ||| before.phase is ResumingNotify && event is Done
        },
        action is UpdateConnection ==> after.phase is UpdatingConnection,
        before.phase is Connecting && before.outlet is Some && (event
            matches ActorEvent::Connected(Ok(_))) ==> after.phase is WritingResume,
        before.phase is WritingResume && (event matches ActorEvent::Done(Ok(_))) ==> after.phase
            is ReadingResume,
        before.phase is ReadingResume && event is Read ==> after.phase is ResumingNotify,
        before.phase is UpdatingConnection && event is Done ==> after.phase is Idle && action
            is Await,
{
}

/// An actor cleans up exactly when it is idle and is told to shut down or can get
/// no further command or notification, and when the fifth attempt to reconnect has
/// failed. Whatever fails on the way, it then has notifications stopped, takes the
/// connection down unless it was given up, takes its entry out and is done.
pub proof fn lemma_when_cleaning_up<D, A, O, R, E>(
    before: DeviceActor<D, A, O, R>,
    event: ActorEvent<D, A, O, R, E>,
    after: DeviceActor<D, A, O, R>,
    action: ActorAction<R, E>,
)
    requires
        steps(before, event, after, action),
    ensures
        action is StopNotify <==> {
            ||| before.phase is Idle && {
                ||| event matches ActorEvent::Command(Some(DeviceCommand::Shutdown))
                ||| event matches ActorEvent::Command(None)
                ||| event matches ActorEvent::Notified(None)
            }
            ||| before.phase == (Phase::<R>::Connecting { attempt: 4 }) && (event
                matches ActorEvent::Connected(Err(_)))
        },
        action is StopNotify ==> after.phase is StoppingNotify,
        action is RemoveEntry <==> {
            ||| before.phase is StoppingNotify && !before.connected && event is Done
            ||| before.phase is Disconnecting && event is Done
        },
        action is RemoveEntry ==> after.phase is Removing,
        action is Finish <==> before.phase is Removing && event is Removed,
        action is Finish ==> after.phase is Finished,
{
}

/// An actor fails exactly where it gets no notifications, cannot find what it looks
/// for, cannot write, cannot read or notify where it starts to record or asks for
/// the charge, or cannot rediscover; and then with that error. Without
/// notifications it says so under its name, with the cause.
pub proof fn lemma_when_failing<D, A, O, R, E>(
    before: DeviceActor<D, A, O, R>,
    event: ActorEvent<D, A, O, R, E>,
    after: DeviceActor<D, A, O, R>,
    action: ActorAction<R, E>,
)
    requires
        steps(before, event, after, action),
    ensures
        action is Fail <==> (match event {
            ActorEvent::Subscribed(Err(_)) => before.phase is Subscribing,
            ActorEvent::DataCharFound(Err(_)) => before.phase is FindingDataChar,
            ActorEvent::Read(Err(_)) => before.phase is ReadingStart || before.phase
                is ReadingPower,
            ActorEvent::Adapters(Err(_)) => before.phase is ListingAdapters,
            ActorEvent::Devices(Err(_)) => before.phase is ListingDevices,
            ActorEvent::Done(Err(_)) => before.phase is FindingService || before.phase
                is FindingCommandChar || before.phase is WritingStart || before.phase
                is EnablingNotify || before.phase is WritingPower || before.phase
                is StartingDiscovery || before.phase is StoppingDiscovery || before.phase
                is WritingResume,
            _ => false,
        }),
        action matches ActorAction::Fail(error) ==> {
            &&& after.phase is Failed
            &&& match (event, error) {
                (ActorEvent::Subscribed(Err(cause)), ActorError::Notifications(message)) => message@
                    == "Actor for "@ + before.name@ + ": Failed to get notifications: "@ + cause@,
                (ActorEvent::DataCharFound(Err(e)), ActorError::Operation(told)) => told == e,
                (ActorEvent::Read(Err(e)), ActorError::Operation(told)) => told == e,
                (ActorEvent::Adapters(Err(e)), ActorError::Operation(told)) => told == e,
                (ActorEvent::Devices(Err(e)), ActorError::Operation(told)) => told == e,
                (ActorEvent::Done(Err(e)), ActorError::Operation(told)) => told == e,
                _ => false,
            }
        },
{
}

/// An idle actor that is notified of anything but a sample to push or the loss of
/// its own connection just waits on.
pub proof fn lemma_when_waiting_on<D, A, O, R, E>(
    before: DeviceActor<D, A, O, R>,
    notification: Notification,
    after: DeviceActor<D, A, O, R>,
    action: ActorAction<R, E>,
)
    requires
        before.phase is Idle,
        steps(
            before,
            ActorEvent::<D, A, O, R, E>::Notified(Some(notification)),
            after,
            action,
        ),
    ensures
        action is Push || action is Disconnect || action is Await,
        action is Push || action is Await ==> after == before,
{
}

/// Where an attempt to reconnect that is not the fifth fails and the error's name
/// holds "UnknownObject", the next attempt comes only after the adapters were
/// listed, the first one has discovered for five seconds, and the devices were
/// listed, recording or not. The attempt then goes to the last listed device with
/// the actor's name, if there is one.
pub proof fn lemma_lost_device_is_rediscovered<D, A, O, R, E>(
    states: Seq<DeviceActor<D, A, O, R>>,
    events: Seq<ActorEvent<D, A, O, R, E>>,
    actions: Seq<ActorAction<R, E>>,
    attempt: u8,
    dbus_name: String,
    front: Seq<char>,
    back: Seq<char>,
    listed: Vec<DeviceInfo<D>>,
    i: int,
)
    requires
        states.len() == 9,
        events.len() == 8,
        actions.len() == 8,
        attempt < 4,
        (states[0].phase == (Phase::<R>::Connecting { attempt })),
        forall|k: int|
            0 <= k < 8 ==> steps(states[k], #[trigger] events[k], states[k + 1], actions[k]),
        events[0] == ActorEvent::<D, A, O, R, E>::Connected(Err(Some(dbus_name))),
        dbus_name@ == front + "UnknownObject"@ + back,
        events[1] is Slept,
        events[2] matches ActorEvent::Adapters(Ok(_)),
        events[3] matches ActorEvent::Done(Ok(_)),
        events[4] is Slept,
        events[5] matches ActorEvent::Done(Ok(_)),
        events[6] == ActorEvent::<D, A, O, R, E>::Devices(Ok(listed)),
        events[7] is Done,
    ensures
        actions == seq![
            ActorAction::<R, E>::Sleep { seconds: pow2((attempt + 1) as nat) as u64 },
            ActorAction::<R, E>::ListAdapters,
            ActorAction::<R, E>::StartDiscovery,
            ActorAction::<R, E>::Sleep { seconds: 5 },
            ActorAction::<R, E>::StopDiscovery,
            ActorAction::<R, E>::ListDevices,
            ActorAction::<R, E>::Disconnect,
            ActorAction::<R, E>::Connect,
        ],
        states[8].phase == (Phase::<R>::Connecting { attempt: (attempt + 1) as u8 }),
        states[8].adapter == Some(events[2]->Adapters_0->Ok_0@[0]),
        (0 <= i < listed@.len() && listed@[i].name is Some && listed@[i].name->0@ == states[0].name@
            && forall|j: int|
            i < j < listed@.len() ==> (#[trigger] listed@[j]).name is None || listed@[j].name->0@
                != states[0].name@) ==> states[8].device == listed@[i],
        states[8].name == states[0].name,
        states[8].outlet == states[0].outlet,
{
    lemma2_to64();
    crate::device_actor::lemma_lost_name(dbus_name@, front, back);
    assert(steps(states[0], events[0], states[1], actions[0]));
    assert(steps(states[1], events[1], states[2], actions[1]));
    assert(steps(states[2], events[2], states[3], actions[2]));
    assert(steps(states[3], events[3], states[4], actions[3]));
    assert(steps(states[4], events[4], states[5], actions[4]));
    assert(steps(states[5], events[5], states[6], actions[5]));
    assert(steps(states[6], events[6], states[7], actions[6]));
    assert(steps(states[7], events[7], states[8], actions[7]));
    lemma_rediscovered_device(states[6], listed, states[7], actions[6], i);
    assert(actions[0] == (ActorAction::<R, E>::Sleep {
        seconds: pow2((attempt + 1) as nat) as u64,
    }));
}

/// Where an attempt to reconnect that is not the fifth fails and the error has no
/// name, or one that does not hold "UnknownObject", the next attempt to connect the
/// same device comes right after the wait.
pub proof fn lemma_known_device_is_retried<D, A, O, R, E>(
    states: Seq<DeviceActor<D, A, O, R>>,
    events: Seq<ActorEvent<D, A, O, R, E>>,
    actions: Seq<ActorAction<R, E>>,
    attempt: u8,
    dbus_name: Option<String>,
)
    requires
        states.len() == 4,
        events.len() == 3,
        actions.len() == 3,
        attempt < 4,
        (states[0].phase == (Phase::<R>::Connecting { attempt })),
        forall|k: int|
            0 <= k < 3 ==> steps(states[k], #[trigger] events[k], states[k + 1], actions[k]),
        events[0] == ActorEvent::<D, A, O, R, E>::Connected(Err(dbus_name)),
        dbus_name matches Some(name) ==> forall|a: Seq<char>, b: Seq<char>|
            name@ != #[trigger] (a + "UnknownObject"@ + b),
        events[1] is Slept,
        events[2] is Done,
    ensures
        actions == seq![
            ActorAction::<R, E>::Sleep { seconds: pow2((attempt + 1) as nat) as u64 },
            ActorAction::<R, E>::Disconnect,
            ActorAction::<R, E>::Connect,
        ],
        states[3] == (DeviceActor {
            phase: Phase::Connecting { attempt: (attempt + 1) as u8 },
            ..states[0]
        }),
{
    lemma2_to64();
    if let Some(name) = dbus_name {
        crate::device_actor::lemma_lost_name(name@, Seq::empty(), Seq::empty());
    }
    assert(steps(states[0], events[0], states[1], actions[0]));
    assert(steps(states[1], events[1], states[2], actions[1]));
    assert(steps(states[2], events[2], states[3], actions[2]));
    assert(actions[0] == (ActorAction::<R, E>::Sleep {
        seconds: pow2((attempt + 1) as nat) as u64,
    }));
}

} // verus!
