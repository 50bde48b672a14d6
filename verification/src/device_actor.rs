//! The actor that owns the connection to one device.
//!
//! The actor is a state machine. Whoever drives it performs the action that a
//! step hands out, and hands back what came of it as the next event.

use crate::mitch::{
    battery_charge, byte_sample, is_power_reply, stream_of, Commands, StreamSpec, COMMAND_CHAR,
    DATA_CHAR, SERVICE,
};
use crate::protocol::{DeviceCommand, DeviceStatus};
use crate::text::contains;
use vstd::prelude::*;

verus! {

/// A device as Bluetooth lists it. `D` is what the driver addresses it by.
#[derive(Debug, PartialEq, Eq)]
pub struct DeviceInfo<D> {
    pub id: String,
    pub name: Option<String>,
    pub handle: D,
}

/// What Bluetooth reports of its own accord.
#[derive(Debug, PartialEq, Eq)]
pub enum Notification {
    /// Of a characteristic: its new value, or `None` for anything else.
    Characteristic { id: String, value: Option<Vec<u8>> },
    /// Of a device: whether it is connected now.
    Connection { id: String, connected: bool },
    /// Anything else.
    Other,
}

/// What the actor is waiting for.
#[derive(Debug, PartialEq, Eq)]
pub enum Phase<R> {
    Created,
    Subscribing,
    FindingService,
    FindingCommandChar,
    FindingDataChar,
    /// For a command or a notification.
    Idle,
    OpeningOutlet,
    WritingStart,
    ReadingStart,
    EnablingNotify,
    WritingPower { tx: R },
    ReadingPower { tx: R },
    Dropping { attempt: u8 },
    Connecting { attempt: u8 },
    BackingOff { attempt: u8, object_lost: bool },
    ListingAdapters { attempt: u8 },
    StartingDiscovery { attempt: u8 },
    Discovering { attempt: u8 },
    StoppingDiscovery { attempt: u8 },
    ListingDevices { attempt: u8 },
    WritingResume,
    ReadingResume,
    ResumingNotify,
    UpdatingConnection,
    StoppingNotify,
    Disconnecting,
    Removing,
    Finished,
    Failed,
}

/// What happened. `E` is the error of an operation that failed.
#[derive(Debug, PartialEq, Eq)]
pub enum ActorEvent<D, A, O, R, E> {
    /// The actor was spawned.
    Started,
    /// The outcome of `Subscribe`; an error comes as its text.
    Subscribed(Result<(), String>),
    /// The outcome of an operation that yields nothing.
    Done(Result<(), E>),
    /// The outcome of looking for the data characteristic: its identifier.
    DataCharFound(Result<String, E>),
    /// A command, or `None` where no further command can come.
    Command(Option<DeviceCommand<R>>),
    /// A notification, or `None` where no further notification can come.
    Notified(Option<Notification>),
    OutletOpened(O),
    /// The outcome of `ReadCommandChar`.
    Read(Result<Vec<u8>, E>),
    /// The outcome of `Connect`; an error comes as its D-Bus name, if it has one.
    Connected(Result<(), Option<String>>),
    Slept,
    /// The outcome of `ListAdapters`.
    Adapters(Result<Vec<A>, E>),
    /// The outcome of `ListDevices`.
    Devices(Result<Vec<DeviceInfo<D>>, E>),
    /// `RemoveEntry` was done.
    Removed,
}

/// Why an actor failed.
#[derive(Debug, PartialEq, Eq)]
pub enum ActorError<E> {
    /// There are no notifications; the text says why.
    Notifications(String),
    /// An operation failed.
    Operation(E),
}

/// What the driver has to do.
#[derive(Debug, PartialEq, Eq)]
pub enum ActorAction<R, E> {
    /// Open the stream of notifications.
    Subscribe,
    /// Find the device's service with this UUID.
    FindService { uuid: u128 },
    /// Find the service's characteristic with this UUID.
    FindCharacteristic { uuid: u128 },
    /// Wait for a command or a notification.
    Await,
    /// Open an outlet for this stream.
    OpenOutlet(StreamSpec),
    /// Write to the command characteristic, with response.
    Write(Commands),
    ReadCommandChar,
    /// Have the data characteristic notify.
    StartNotify,
    /// Send the status and, whether that worked or not, wait on.
    Reply { tx: R, status: DeviceStatus },
    /// Push the sample into the outlet and wait on.
    Push(Vec<i16>),
    /// Disconnect the actor's device.
    Disconnect,
    /// Connect the actor's device.
    Connect,
    Sleep { seconds: u64 },
    ListAdapters,
    /// Start discovery on the actor's adapter.
    StartDiscovery,
    StopDiscovery,
    /// List the devices on the actor's adapter.
    ListDevices,
    /// Ask for better connection parameters.
    UpdateConnection,
    /// Have the data characteristic no longer notify.
    StopNotify,
    /// Take the entry with the actor's name out of the device map.
    RemoveEntry,
    /// The actor is done.
    Finish,
    /// The actor ends with an error.
    Fail(ActorError<E>),
    /// The event was not what the actor waits for; it still waits.
    Ignore,
}

/// The state of an actor. `A` is what the driver addresses an adapter by, `O`
/// an outlet, `R` the channel over which a status is sent back.
#[derive(Debug, PartialEq, Eq)]
pub struct DeviceActor<D, A, O, R> {
    pub name: String,
    pub device: DeviceInfo<D>,
    pub adapter: Option<A>,
    /// The identifier of the data characteristic, once it is found.
    pub data_id: Option<String>,
    /// The outlet that samples are pushed into, once recording has started.
    pub outlet: Option<O>,
    /// Whether there may be a connection to take down in the end.
    pub connected: bool,
    pub phase: Phase<R>,
}

/// The number of the last attempt to reconnect; the first is number 0.
pub const LAST_ATTEMPT: u8 = 4;

/// How long a discovery lasts, in seconds.
pub const DISCOVERY_SECONDS: u64 = 5;

/// What the D-Bus name of an error holds where BlueZ no longer knows a device.
pub const UNKNOWN_OBJECT: &'static str = "UnknownObject";

/// How long to wait after attempt number `attempt` has failed, in seconds.
pub open spec fn backoff_after(attempt: int) -> int {
    if attempt == 0 {
        2
    } else if attempt == 1 {
        4
    } else if attempt == 2 {
        8
    } else {
        16
    }
}

/// How long to wait after attempt number `attempt` has failed, in seconds.
pub fn backoff_seconds(attempt: u8) -> (seconds: u64)
    requires
        attempt < LAST_ATTEMPT,
    ensures
        seconds == backoff_after(attempt as int),
{
    if attempt == 0 {
        2
    } else if attempt == 1 {
        4
    } else if attempt == 2 {
        8
    } else {
        16
    }
}

/// Whether the D-Bus name of an error says that BlueZ no longer knows a device.
pub open spec fn says_object_lost(dbus_name: Option<String>) -> bool {
    dbus_name is Some && crate::text::occurs_in(dbus_name->0@, UNKNOWN_OBJECT@)
}

/// Whether the D-Bus name of an error says that BlueZ no longer knows a device.
pub fn is_object_lost(dbus_name: &Option<String>) -> (lost: bool)
    ensures
        lost == says_object_lost(*dbus_name),
{
    match dbus_name {
        Some(name) => contains(name.as_str(), UNKNOWN_OBJECT),
        None => false,
    }
}

/// Whether a listed device goes by this name.
pub open spec fn has_name<D>(device: DeviceInfo<D>, name: Seq<char>) -> bool {
    device.name is Some && device.name->0@ == name
}

/// What stays of `current` after a rediscovery listed these devices: the last
/// one with the name takes its place, if there is one.
pub open spec fn rediscovered<D>(
    current: DeviceInfo<D>,
    listed: Seq<DeviceInfo<D>>,
    name: Seq<char>,
    found: DeviceInfo<D>,
) -> bool {
    ||| exists|i: int|
        {
            &&& 0 <= i < listed.len()
            &&& found == #[trigger] listed[i]
            &&& has_name(listed[i], name)
            &&& forall|j: int| i < j < listed.len() ==> !has_name(#[trigger] listed[j], name)
        }
    ||| found == current && forall|i: int|
        0 <= i < listed.len() ==> !has_name(#[trigger] listed[i], name)
}

/// The device to go on with after a rediscovery.
pub fn rediscover<D>(
    current: DeviceInfo<D>,
    listed: Vec<DeviceInfo<D>>,
    name: &String,
) -> (found: DeviceInfo<D>)
    ensures
        rediscovered(current, listed@, name@, found),
{
    let mut rest = listed;
    while rest.len() > 0
        invariant
            rest@.len() <= listed@.len(),
            rest@ == listed@.take(rest@.len() as int),
            forall|j: int|
                rest@.len() <= j < listed@.len() ==> !has_name(#[trigger] listed@[j], name@),
        decreases rest.len(),
    {
        let ghost before = rest@;
        let last = rest.pop();
        if let Some(device) = last {
            assert(device == listed@[before.len() - 1]);
            let named = match &device.name {
                Some(n) => *n == *name,
                None => false,
            };
            if named {
                return device;
            }
        }
        assert(rest@ =~= listed@.take(rest@.len() as int));
    }
    current
}

/// The listed devices that have a name, in order, with their names. The others
/// cannot be asked for.
pub fn named_devices<D>(listed: Vec<DeviceInfo<D>>) -> (result: (Vec<String>, Vec<DeviceInfo<D>>))
    ensures
        result.1@ == listed@.filter(|device: DeviceInfo<D>| device.name is Some),
        result.0@.len() == result.1@.len(),
        forall|i: int|
            0 <= i < result.0@.len() ==> result.1@[i].name == Some(#[trigger] result.0@[i]),
{
    let ghost named = |device: DeviceInfo<D>| device.name is Some;
    let mut rest = listed;
    let mut names: Vec<String> = Vec::new();
    let mut devices: Vec<DeviceInfo<D>> = Vec::new();
    proof {
        reveal(Seq::filter);
        assert(listed@.take(0).filter(named) =~= Seq::empty());
    }
    while rest.len() > 0
        invariant
            named == (|device: DeviceInfo<D>| device.name is Some),
            rest@.len() <= listed@.len(),
            rest@ == listed@.skip(listed@.len() - rest@.len()),
            devices@ == listed@.take(listed@.len() - rest@.len()).filter(named),
            names@.len() == devices@.len(),
            forall|i: int|
                0 <= i < names@.len() ==> devices@[i].name == Some(#[trigger] names@[i]),
        decreases rest.len(),
    {
        let ghost done = listed@.len() - rest@.len();
        let device = rest.remove(0);
        proof {
            reveal(Seq::filter);
            assert(device == listed@[done]);
            assert(rest@ =~= listed@.skip(done + 1));
            assert(listed@.take(done + 1).drop_last() =~= listed@.take(done));
            assert(listed@.take(done + 1).last() == device);
        }
        let name = match &device.name {
            Some(name) => Some(name.clone()),
            None => None,
        };
        if let Some(name) = name {
            names.push(name);
            devices.push(device);
        }
    }
    assert(listed@.take(listed@.len() as int) =~= listed@);
    (names, devices)
}

/// What an actor says that got no notifications.
pub open spec fn notifications_message(name: Seq<char>, cause: Seq<char>) -> Seq<char> {
    "Actor for "@ + name + ": Failed to get notifications: "@ + cause
}

fn notifications_error(name: &String, cause: &String) -> (message: String)
    ensures
        message@ == notifications_message(name@, cause@),
{
    let mut message = "Actor for ".to_string();
    message.append(name.as_str());
    message.append(": Failed to get notifications: ");
    message.append(cause.as_str());
    message
}

impl<R> Phase<R> {
    /// Whether the count of attempts to reconnect is in bounds.
    pub open spec fn wf(self) -> bool {
        match self {
            Phase::Dropping { attempt } => attempt <= LAST_ATTEMPT,
            Phase::Connecting { attempt } => attempt <= LAST_ATTEMPT,
            Phase::BackingOff { attempt, .. } => attempt < LAST_ATTEMPT,
            Phase::ListingAdapters { attempt } => attempt < LAST_ATTEMPT,
            Phase::StartingDiscovery { attempt } => attempt < LAST_ATTEMPT,
            Phase::Discovering { attempt } => attempt < LAST_ATTEMPT,
            Phase::StoppingDiscovery { attempt } => attempt < LAST_ATTEMPT,
            Phase::ListingDevices { attempt } => attempt < LAST_ATTEMPT,
            _ => true,
        }
    }
}

impl<D, A, O, R> DeviceActor<D, A, O, R> {
    pub open spec fn wf(self) -> bool {
        self.phase.wf()
    }

    /// Whether the event can be taken in: a reply to `GetPower` is complete, and
    /// a list of adapters names one.
    pub open spec fn accepts<E>(self, event: ActorEvent<D, A, O, R, E>) -> bool {
        match (self.phase, event) {
            (
                Phase::ReadingPower { .. },
                ActorEvent::Read(Ok(reply)),
            ) => crate::mitch::power_reply_complete(reply@),
            (Phase::ListingAdapters { .. }, ActorEvent::Adapters(Ok(adapters))) => adapters@.len()
                > 0,
            _ => true,
        }
    }

    /// The actor with another phase.
    pub open spec fn in_phase(self, phase: Phase<R>) -> Self {
        DeviceActor { phase, ..self }
    }

    /// Whether a notification of a new value is one of the data that is recorded.
    pub open spec fn records(self, id: String) -> bool {
        &&& self.outlet is Some
        &&& self.data_id is Some
        &&& self.data_id->0@ == id@
    }
}

/// Whether an actor that was `before` becomes `after` and asks for `action` when
/// `event` happens.
pub open spec fn transition<D, A, O, R, E>(
    before: DeviceActor<D, A, O, R>,
    event: ActorEvent<D, A, O, R, E>,
    after: DeviceActor<D, A, O, R>,
    action: ActorAction<R, E>,
) -> bool {
    match (before.phase, event) {
        // Setting up.
        (Phase::Created, ActorEvent::Started) => {
            &&& after == before.in_phase(Phase::Subscribing)
            &&& action == ActorAction::<R, E>::Subscribe
        },
        (Phase::Subscribing, ActorEvent::Subscribed(Ok(_))) => {
            &&& after == before.in_phase(Phase::FindingService)
            &&& action == ActorAction::<R, E>::FindService { uuid: SERVICE }
        },
        (Phase::Subscribing, ActorEvent::Subscribed(Err(cause))) => {
            &&& after == before.in_phase(Phase::Failed)
            &&& action matches ActorAction::Fail(ActorError::Notifications(message))
            &&& message@ == notifications_message(before.name@, cause@)
        },
        (Phase::FindingService, ActorEvent::Done(Ok(_))) => {
            &&& after == before.in_phase(Phase::FindingCommandChar)
            &&& action == ActorAction::<R, E>::FindCharacteristic { uuid: COMMAND_CHAR }
        },
        (Phase::FindingService, ActorEvent::Done(Err(e))) => fails(before, e, after, action),
        (Phase::FindingCommandChar, ActorEvent::Done(Ok(_))) => {
            &&& after == before.in_phase(Phase::FindingDataChar)
            &&& action == ActorAction::<R, E>::FindCharacteristic { uuid: DATA_CHAR }
        },
        (Phase::FindingCommandChar, ActorEvent::Done(Err(e))) => fails(before, e, after, action),
        (Phase::FindingDataChar, ActorEvent::DataCharFound(Ok(id))) => {
            &&& after == (DeviceActor { data_id: Some(id), phase: Phase::Idle, ..before })
            &&& action == ActorAction::<R, E>::Await
        },
        (Phase::FindingDataChar, ActorEvent::DataCharFound(Err(e))) => fails(
            before,
            e,
            after,
            action,
        ),
        // Commands.
        (Phase::Idle, ActorEvent::Command(Some(DeviceCommand::StartRecording { .. }))) => {
            &&& after == before.in_phase(Phase::OpeningOutlet)
            &&& action matches ActorAction::OpenOutlet(stream)
            &&& crate::mitch::is_stream_of(stream, before.name)
        },
        (Phase::Idle, ActorEvent::Command(Some(DeviceCommand::Status { tx }))) => {
            &&& after == before.in_phase(Phase::WritingPower { tx })
            &&& action == ActorAction::<R, E>::Write(Commands::GetPower)
        },
        (Phase::Idle, ActorEvent::Command(Some(DeviceCommand::Shutdown))) => cleans_up(
            before,
            after,
            action,
        ),
        (Phase::Idle, ActorEvent::Command(None)) => cleans_up(before, after, action),
        // Notifications.
        (
            Phase::Idle,
            ActorEvent::Notified(Some(Notification::Characteristic { id, value: Some(data) })),
        ) => {
            &&& after == before
            &&& if before.records(id) && data@.len() >= crate::mitch::PACKET_HEADER {
                action matches ActorAction::Push(sample) && sample@ == crate::mitch::byte_values(
                    data@,
                )
            } else {
                action == ActorAction::<R, E>::Await
            }
        },
        (
            Phase::Idle,
            ActorEvent::Notified(Some(Notification::Characteristic { value: None, .. })),
        ) => after == before && action == ActorAction::<R, E>::Await,
        (
            Phase::Idle,
            ActorEvent::Notified(Some(Notification::Connection { id, connected })),
        ) => if id@ == before.device.id@ && !connected {
            &&& after == before.in_phase(Phase::Dropping { attempt: 0 })
            &&& action == ActorAction::<R, E>::Disconnect
        } else {
            after == before && action == ActorAction::<R, E>::Await
        },
        (Phase::Idle, ActorEvent::Notified(Some(Notification::Other))) => after == before && action
            == ActorAction::<R, E>::Await,
        (Phase::Idle, ActorEvent::Notified(None)) => cleans_up(before, after, action),
        // Starting to record.
        (Phase::OpeningOutlet, ActorEvent::OutletOpened(outlet)) => {
            &&& after == (DeviceActor {
                outlet: Some(outlet),
                phase: Phase::WritingStart,
                ..before
            })
            &&& action == ActorAction::<R, E>::Write(Commands::StartPressureStream)
        },
        (Phase::WritingStart, ActorEvent::Done(Ok(_))) => {
            &&& after == before.in_phase(Phase::ReadingStart)
            &&& action == ActorAction::<R, E>::ReadCommandChar
        },
        (Phase::WritingStart, ActorEvent::Done(Err(e))) => fails(before, e, after, action),
        (Phase::ReadingStart, ActorEvent::Read(Ok(_))) => {
            &&& after == before.in_phase(Phase::EnablingNotify)
            &&& action == ActorAction::<R, E>::StartNotify
        },
        (Phase::ReadingStart, ActorEvent::Read(Err(e))) => fails(before, e, after, action),
        (Phase::EnablingNotify, ActorEvent::Done(Ok(_))) => {
            &&& after == before.in_phase(Phase::Idle)
            &&& action == ActorAction::<R, E>::Await
        },
        (Phase::EnablingNotify, ActorEvent::Done(Err(e))) => fails(before, e, after, action),
        // Telling the status.
        (Phase::WritingPower { tx }, ActorEvent::Done(Ok(_))) => {
            &&& after == before.in_phase(Phase::ReadingPower { tx })
            &&& action == ActorAction::<R, E>::ReadCommandChar
        },
        (Phase::WritingPower { .. }, ActorEvent::Done(Err(e))) => fails(before, e, after, action),
        (Phase::ReadingPower { tx }, ActorEvent::Read(Ok(reply))) => {
            &&& after == before.in_phase(Phase::Idle)
            &&& action == ActorAction::<R, E>::Reply {
                tx,
                status: DeviceStatus {
                    name: before.name,
                    battery_charge: crate::mitch::charge_in(reply@),
                },
            }
        },
        (Phase::ReadingPower { .. }, ActorEvent::Read(Err(e))) => fails(before, e, after, action),
        // Reconnecting.
        (Phase::Dropping { attempt }, ActorEvent::Done(_)) => {
            &&& after == before.in_phase(Phase::Connecting { attempt })
            &&& action == ActorAction::<R, E>::Connect
        },
        (Phase::Connecting { .. }, ActorEvent::Connected(Ok(_))) => if before.outlet is Some {
            &&& after == before.in_phase(Phase::WritingResume)
            &&& action == ActorAction::<R, E>::Write(Commands::StartPressureStream)
        } else {
            &&& after == before.in_phase(Phase::UpdatingConnection)
            &&& action == ActorAction::<R, E>::UpdateConnection
        },
        (Phase::Connecting { attempt }, ActorEvent::Connected(Err(dbus_name))) => if attempt
            == LAST_ATTEMPT {
            cleans_up(DeviceActor { connected: false, ..before }, after, action)
        } else {
            &&& after == before.in_phase(
                Phase::BackingOff { attempt, object_lost: says_object_lost(dbus_name) },
            )
            &&& action == ActorAction::<R, E>::Sleep {
                seconds: backoff_after(attempt as int) as u64,
            }
        },
        (Phase::BackingOff { attempt, object_lost }, ActorEvent::Slept) => if object_lost {
            &&& after == before.in_phase(Phase::ListingAdapters { attempt })
            &&& action == ActorAction::<R, E>::ListAdapters
        } else {
            tries_again(before, attempt, after, action)
        },
        (Phase::ListingAdapters { attempt }, ActorEvent::Adapters(Ok(adapters))) => {
            &&& after == (DeviceActor {
                adapter: Some(adapters@[0]),
                phase: Phase::StartingDiscovery { attempt },
                ..before
            })
            &&& action == ActorAction::<R, E>::StartDiscovery
        },
        (Phase::ListingAdapters { .. }, ActorEvent::Adapters(Err(e))) => fails(
            before,
            e,
            after,
            action,
        ),
        (Phase::StartingDiscovery { attempt }, ActorEvent::Done(Ok(_))) => {
            &&& after == before.in_phase(Phase::Discovering { attempt })
            &&& action == ActorAction::<R, E>::Sleep { seconds: DISCOVERY_SECONDS }
        },
        (Phase::StartingDiscovery { .. }, ActorEvent::Done(Err(e))) => fails(
            before,
            e,
            after,
            action,
        ),
        (Phase::Discovering { attempt }, ActorEvent::Slept) => {
            &&& after == before.in_phase(Phase::StoppingDiscovery { attempt })
            &&& action == ActorAction::<R, E>::StopDiscovery
        },
        (Phase::StoppingDiscovery { attempt }, ActorEvent::Done(Ok(_))) => {
            &&& after == before.in_phase(Phase::ListingDevices { attempt })
            &&& action == ActorAction::<R, E>::ListDevices
        },
        (Phase::StoppingDiscovery { .. }, ActorEvent::Done(Err(e))) => fails(
            before,
            e,
            after,
            action,
        ),
        (Phase::ListingDevices { attempt }, ActorEvent::Devices(Ok(listed))) => {
            &&& rediscovered(before.device, listed@, before.name@, after.device)
            &&& tries_again(
                DeviceActor { device: after.device, ..before },
                attempt,
                after,
                action,
            )
        },
        (Phase::ListingDevices { .. }, ActorEvent::Devices(Err(e))) => fails(
            before,
            e,
            after,
            action,
        ),
        // Going on after a reconnection.
        (Phase::WritingResume, ActorEvent::Done(Ok(_))) => {
            &&& after == before.in_phase(Phase::ReadingResume)
            &&& action == ActorAction::<R, E>::ReadCommandChar
        },
        (Phase::WritingResume, ActorEvent::Done(Err(e))) => fails(before, e, after, action),
        (Phase::ReadingResume, ActorEvent::Read(_)) => {
            &&& after == before.in_phase(Phase::ResumingNotify)
            &&& action == ActorAction::<R, E>::StartNotify
        },
        (Phase::ResumingNotify, ActorEvent::Done(_)) => {
            &&& after == before.in_phase(Phase::UpdatingConnection)
            &&& action == ActorAction::<R, E>::UpdateConnection
        },
        (Phase::UpdatingConnection, ActorEvent::Done(_)) => {
            &&& after == before.in_phase(Phase::Idle)
            &&& action == ActorAction::<R, E>::Await
        },
        // Cleaning up.
        (Phase::StoppingNotify, ActorEvent::Done(_)) => if before.connected {
            &&& after == before.in_phase(Phase::Disconnecting)
            &&& action == ActorAction::<R, E>::Disconnect
        } else {
            &&& after == before.in_phase(Phase::Removing)
            &&& action == ActorAction::<R, E>::RemoveEntry
        },
        (Phase::Disconnecting, ActorEvent::Done(_)) => {
            &&& after == before.in_phase(Phase::Removing)
            &&& action == ActorAction::<R, E>::RemoveEntry
        },
        (Phase::Removing, ActorEvent::Removed) => {
            &&& after == before.in_phase(Phase::Finished)
            &&& action == ActorAction::<R, E>::Finish
        },
        // Anything else is not what the actor waits for.
        _ => after == before && action == ActorAction::<R, E>::Ignore,
    }
}

/// The actor ends with the error of an operation.
pub open spec fn fails<D, A, O, R, E>(
    before: DeviceActor<D, A, O, R>,
    error: E,
    after: DeviceActor<D, A, O, R>,
    action: ActorAction<R, E>,
) -> bool {
    &&& after == before.in_phase(Phase::Failed)
    &&& action == ActorAction::<R, E>::Fail(ActorError::Operation(error))
}

/// The actor starts to clean up.
pub open spec fn cleans_up<D, A, O, R, E>(
    before: DeviceActor<D, A, O, R>,
    after: DeviceActor<D, A, O, R>,
    action: ActorAction<R, E>,
) -> bool {
    &&& after == before.in_phase(Phase::StoppingNotify)
    &&& action == ActorAction::<R, E>::StopNotify
}

/// The actor starts the attempt to reconnect that follows number `attempt`.
pub open spec fn tries_again<D, A, O, R, E>(
    before: DeviceActor<D, A, O, R>,
    attempt: u8,
    after: DeviceActor<D, A, O, R>,
    action: ActorAction<R, E>,
) -> bool {
    &&& after == before.in_phase(Phase::Dropping { attempt: (attempt + 1) as u8 })
    &&& action == ActorAction::<R, E>::Disconnect
}

impl<D, A, O, R> DeviceActor<D, A, O, R> {
    /// An actor for a device that is connected, before it is spawned.
    #[must_use]
    pub fn new(name: &str, device: DeviceInfo<D>) -> (actor: Self)
        ensures
            actor.wf(),
            actor.name@ == name@,
            actor.device == device,
            actor.adapter is None,
            actor.data_id is None,
            actor.outlet is None,
            actor.connected,
            actor.phase == Phase::<R>::Created,
    {
        DeviceActor {
            name: name.to_string(),
            device,
            adapter: None,
            data_id: None,
            outlet: None,
            connected: true,
            phase: Phase::Created,
        }
    }

    /// Whether the event can be taken in.
    pub fn can_take<E>(&self, event: &ActorEvent<D, A, O, R, E>) -> (taken: bool)
        ensures
            taken == self.accepts(*event),
    {
        match (&self.phase, event) {
            (Phase::ReadingPower { .. }, ActorEvent::Read(Ok(reply))) => is_power_reply(reply),
            (Phase::ListingAdapters { .. }, ActorEvent::Adapters(Ok(adapters))) => adapters.len()
                > 0,
            _ => true,
        }
    }

    /// What the actor does when `event` happens.
    pub fn step<E>(self, event: ActorEvent<D, A, O, R, E>) -> (result: (Self, ActorAction<R, E>))
        requires
            self.wf(),
            self.accepts(event),
        ensures
            result.0.wf(),
            transition(self, event, result.0, result.1),
    {
        match (self.phase, event) {
            (Phase::Created, ActorEvent::Started) => (
                DeviceActor { phase: Phase::Subscribing, ..self },
                ActorAction::Subscribe,
            ),
            (Phase::Subscribing, ActorEvent::Subscribed(Ok(_))) => (
                DeviceActor { phase: Phase::FindingService, ..self },
                ActorAction::FindService { uuid: SERVICE },
            ),
            (Phase::Subscribing, ActorEvent::Subscribed(Err(cause))) => {
                let message = notifications_error(&self.name, &cause);
                (
                    DeviceActor { phase: Phase::Failed, ..self },
                    ActorAction::Fail(ActorError::Notifications(message)),
                )
            },
            (Phase::FindingService, ActorEvent::Done(Ok(_))) => (
                DeviceActor { phase: Phase::FindingCommandChar, ..self },
                ActorAction::FindCharacteristic { uuid: COMMAND_CHAR },
            ),
            (Phase::FindingService, ActorEvent::Done(Err(e))) => (
                DeviceActor { phase: Phase::Failed, ..self },
                ActorAction::Fail(ActorError::Operation(e)),
            ),
            (Phase::FindingCommandChar, ActorEvent::Done(Ok(_))) => (
                DeviceActor { phase: Phase::FindingDataChar, ..self },
                ActorAction::FindCharacteristic { uuid: DATA_CHAR },
            ),
            (Phase::FindingCommandChar, ActorEvent::Done(Err(e))) => (
                DeviceActor { phase: Phase::Failed, ..self },
                ActorAction::Fail(ActorError::Operation(e)),
            ),
            (Phase::FindingDataChar, ActorEvent::DataCharFound(Ok(id))) => (
                DeviceActor { data_id: Some(id), phase: Phase::Idle, ..self },
                ActorAction::Await,
            ),
            (Phase::FindingDataChar, ActorEvent::DataCharFound(Err(e))) => (
                DeviceActor { phase: Phase::Failed, ..self },
                ActorAction::Fail(ActorError::Operation(e)),
            ),
            (Phase::Idle, ActorEvent::Command(Some(DeviceCommand::StartRecording { .. }))) => {
                let stream = stream_of(&self.name);
                (
                    DeviceActor { phase: Phase::OpeningOutlet, ..self },
                    ActorAction::OpenOutlet(stream),
                )
            },
            (Phase::Idle, ActorEvent::Command(Some(DeviceCommand::Status { tx }))) => (
                DeviceActor { phase: Phase::WritingPower { tx }, ..self },
                ActorAction::Write(Commands::GetPower),
            ),
            (Phase::Idle, ActorEvent::Command(Some(DeviceCommand::Shutdown))) => (
                DeviceActor { phase: Phase::StoppingNotify, ..self },
                ActorAction::StopNotify,
            ),
            (Phase::Idle, ActorEvent::Command(None)) => (
                DeviceActor { phase: Phase::StoppingNotify, ..self },
                ActorAction::StopNotify,
            ),
            (Phase::Idle, ActorEvent::Notified(None)) => (
                DeviceActor { phase: Phase::StoppingNotify, ..self },
                ActorAction::StopNotify,
            ),
            (Phase::Idle, ActorEvent::Notified(Some(notification))) => (DeviceActor {
                phase: Phase::Idle,
                ..self
            }).notified(notification),
            (Phase::OpeningOutlet, ActorEvent::OutletOpened(outlet)) => (
                DeviceActor { outlet: Some(outlet), phase: Phase::WritingStart, ..self },
                ActorAction::Write(Commands::StartPressureStream),
            ),
            (Phase::WritingStart, ActorEvent::Done(Ok(_))) => (
                DeviceActor { phase: Phase::ReadingStart, ..self },
                ActorAction::ReadCommandChar,
            ),
            (Phase::WritingStart, ActorEvent::Done(Err(e))) => (
                DeviceActor { phase: Phase::Failed, ..self },
                ActorAction::Fail(ActorError::Operation(e)),
            ),
            (Phase::ReadingStart, ActorEvent::Read(Ok(_))) => (
                DeviceActor { phase: Phase::EnablingNotify, ..self },
                ActorAction::StartNotify,
            ),
            (Phase::ReadingStart, ActorEvent::Read(Err(e))) => (
                DeviceActor { phase: Phase::Failed, ..self },
                ActorAction::Fail(ActorError::Operation(e)),
            ),
            (Phase::EnablingNotify, ActorEvent::Done(Ok(_))) => (
                DeviceActor { phase: Phase::Idle, ..self },
                ActorAction::Await,
            ),
            (Phase::EnablingNotify, ActorEvent::Done(Err(e))) => (
                DeviceActor { phase: Phase::Failed, ..self },
                ActorAction::Fail(ActorError::Operation(e)),
            ),
            (Phase::WritingPower { tx }, ActorEvent::Done(Ok(_))) => (
                DeviceActor { phase: Phase::ReadingPower { tx }, ..self },
                ActorAction::ReadCommandChar,
            ),
            (Phase::WritingPower { .. }, ActorEvent::Done(Err(e))) => (
                DeviceActor { phase: Phase::Failed, ..self },
                ActorAction::Fail(ActorError::Operation(e)),
            ),
            (Phase::ReadingPower { tx }, ActorEvent::Read(Ok(reply))) => {
                let status = DeviceStatus {
                    name: self.name.clone(),
                    battery_charge: battery_charge(&reply),
                };
                (DeviceActor { phase: Phase::Idle, ..self }, ActorAction::Reply { tx, status })
            },
            (Phase::ReadingPower { .. }, ActorEvent::Read(Err(e))) => (
                DeviceActor { phase: Phase::Failed, ..self },
                ActorAction::Fail(ActorError::Operation(e)),
            ),
            (Phase::Dropping { attempt }, ActorEvent::Done(_)) => (
                DeviceActor { phase: Phase::Connecting { attempt }, ..self },
                ActorAction::Connect,
            ),
            (Phase::Connecting { .. }, ActorEvent::Connected(Ok(_))) => {
                if self.outlet.is_some() {
                    (
                        DeviceActor { phase: Phase::WritingResume, ..self },
                        ActorAction::Write(Commands::StartPressureStream),
                    )
                } else {
                    (
                        DeviceActor { phase: Phase::UpdatingConnection, ..self },
                        ActorAction::UpdateConnection,
                    )
                }
            },
            (Phase::Connecting { attempt }, ActorEvent::Connected(Err(dbus_name))) => {
                if attempt == LAST_ATTEMPT {
                    (
                        DeviceActor { connected: false, phase: Phase::StoppingNotify, ..self },
                        ActorAction::StopNotify,
                    )
                } else {
                    let object_lost = is_object_lost(&dbus_name);
                    (
                        DeviceActor { phase: Phase::BackingOff { attempt, object_lost }, ..self },
                        ActorAction::Sleep { seconds: backoff_seconds(attempt) },
                    )
                }
            },
            (Phase::BackingOff { attempt, object_lost }, ActorEvent::Slept) => {
                if object_lost {
                    (
                        DeviceActor { phase: Phase::ListingAdapters { attempt }, ..self },
                        ActorAction::ListAdapters,
                    )
                } else {
                    (
                        DeviceActor { phase: Phase::Dropping { attempt: attempt + 1 }, ..self },
                        ActorAction::Disconnect,
                    )
                }
            },
            (Phase::ListingAdapters { attempt }, ActorEvent::Adapters(Ok(adapters))) => {
                let mut adapters = adapters;
                let adapter = adapters.swap_remove(0);
                (
                    DeviceActor {
                        adapter: Some(adapter),
                        phase: Phase::StartingDiscovery { attempt },
                        ..self
                    },
                    ActorAction::StartDiscovery,
                )
            },
            (Phase::ListingAdapters { .. }, ActorEvent::Adapters(Err(e))) => (
                DeviceActor { phase: Phase::Failed, ..self },
                ActorAction::Fail(ActorError::Operation(e)),
            ),
            (Phase::StartingDiscovery { attempt }, ActorEvent::Done(Ok(_))) => (
                DeviceActor { phase: Phase::Discovering { attempt }, ..self },
                ActorAction::Sleep { seconds: DISCOVERY_SECONDS },
            ),
            (Phase::StartingDiscovery { .. }, ActorEvent::Done(Err(e))) => (
                DeviceActor { phase: Phase::Failed, ..self },
                ActorAction::Fail(ActorError::Operation(e)),
            ),
            (Phase::Discovering { attempt }, ActorEvent::Slept) => (
                DeviceActor { phase: Phase::StoppingDiscovery { attempt }, ..self },
                ActorAction::StopDiscovery,
            ),
            (Phase::StoppingDiscovery { attempt }, ActorEvent::Done(Ok(_))) => (
                DeviceActor { phase: Phase::ListingDevices { attempt }, ..self },
                ActorAction::ListDevices,
            ),
            (Phase::StoppingDiscovery { .. }, ActorEvent::Done(Err(e))) => (
                DeviceActor { phase: Phase::Failed, ..self },
                ActorAction::Fail(ActorError::Operation(e)),
            ),
            (Phase::ListingDevices { attempt }, ActorEvent::Devices(Ok(listed))) => {
                let device = rediscover(self.device, listed, &self.name);
                (
                    DeviceActor { device, phase: Phase::Dropping { attempt: attempt + 1 }, ..self },
                    ActorAction::Disconnect,
                )
            },
            (Phase::ListingDevices { .. }, ActorEvent::Devices(Err(e))) => (
                DeviceActor { phase: Phase::Failed, ..self },
                ActorAction::Fail(ActorError::Operation(e)),
            ),
            (Phase::WritingResume, ActorEvent::Done(Ok(_))) => (
                DeviceActor { phase: Phase::ReadingResume, ..self },
                ActorAction::ReadCommandChar,
            ),
            (Phase::WritingResume, ActorEvent::Done(Err(e))) => (
                DeviceActor { phase: Phase::Failed, ..self },
                ActorAction::Fail(ActorError::Operation(e)),
            ),
            (Phase::ReadingResume, ActorEvent::Read(_)) => (
                DeviceActor { phase: Phase::ResumingNotify, ..self },
                ActorAction::StartNotify,
            ),
            (Phase::ResumingNotify, ActorEvent::Done(_)) => (
                DeviceActor { phase: Phase::UpdatingConnection, ..self },
                ActorAction::UpdateConnection,
            ),
            (Phase::UpdatingConnection, ActorEvent::Done(_)) => (
                DeviceActor { phase: Phase::Idle, ..self },
                ActorAction::Await,
            ),
            (Phase::StoppingNotify, ActorEvent::Done(_)) => {
                if self.connected {
                    (
                        DeviceActor { phase: Phase::Disconnecting, ..self },
                        ActorAction::Disconnect,
                    )
                } else {
                    (DeviceActor { phase: Phase::Removing, ..self }, ActorAction::RemoveEntry)
                }
            },
            (Phase::Disconnecting, ActorEvent::Done(_)) => (
                DeviceActor { phase: Phase::Removing, ..self },
                ActorAction::RemoveEntry,
            ),
            (Phase::Removing, ActorEvent::Removed) => (
                DeviceActor { phase: Phase::Finished, ..self },
                ActorAction::Finish,
            ),
            (phase, _) => (DeviceActor { phase, ..self }, ActorAction::Ignore),
        }
    }

    /// What an idle actor does with a notification.
    fn notified<E>(self, notification: Notification) -> (result: (Self, ActorAction<R, E>))
        requires
            self.phase == Phase::<R>::Idle,
        ensures
            transition(
                self,
                ActorEvent::<D, A, O, R, E>::Notified(Some(notification)),
                result.0,
                result.1,
            ),
            result.0.wf(),
    {
        match notification {
            Notification::Characteristic { id, value: Some(data) } => {
                let recorded = match (&self.data_id, &self.outlet) {
                    (Some(data_id), Some(_)) => *data_id == id,
                    _ => false,
                };
                if recorded {
                    match byte_sample(&data) {
                        Some(sample) => (self, ActorAction::Push(sample)),
                        None => (self, ActorAction::Await),
                    }
                } else {
                    (self, ActorAction::Await)
                }
            },
            Notification::Connection { id, connected } => {
                if id == self.device.id && !connected {
                    (
                        DeviceActor { phase: Phase::Dropping { attempt: 0 }, ..self },
                        ActorAction::Disconnect,
                    )
                } else {
                    (self, ActorAction::Await)
                }
            },
            _ => (self, ActorAction::Await),
        }
    }
}

/// The wait after an attempt is two seconds for the first and twice the wait before
/// for each that follows: two, four, eight and sixteen.
pub proof fn lemma_backoff_seconds(attempt: u8, seconds: u64)
    requires
        attempt < 4,
        call_ensures(backoff_seconds, (attempt,), seconds),
    ensures
        call_requires(backoff_seconds, (attempt,)),
        seconds == vstd::arithmetic::power2::pow2((attempt + 1) as nat),
{
    vstd::arithmetic::power2::lemma2_to64();
}

/// An error says that BlueZ lost a device exactly where it has a name, and the
/// name is something, then "UnknownObject", then something.
pub proof fn lemma_object_lost(
    dbus_name: &Option<String>,
    lost: bool,
    front: Seq<char>,
    back: Seq<char>,
)
    requires
        call_ensures(is_object_lost, (dbus_name,), lost),
    ensures
        call_requires(is_object_lost, (dbus_name,)),
        dbus_name is None ==> !lost,
        (dbus_name is Some && dbus_name->0@ == front + "UnknownObject"@ + back) ==> lost,
        lost ==> dbus_name is Some && exists|a: Seq<char>, b: Seq<char>|
            dbus_name->0@ == #[trigger] (a + "UnknownObject"@ + b),
{
    if let Some(name) = dbus_name {
        lemma_lost_name(name@, front, back);
    }
}

/// What it means that a name says that a device is lost.
pub(crate) proof fn lemma_lost_name(name: Seq<char>, front: Seq<char>, back: Seq<char>)
    ensures
        name == front + "UnknownObject"@ + back ==> crate::text::occurs_in(name, UNKNOWN_OBJECT@),
        crate::text::occurs_in(name, UNKNOWN_OBJECT@) ==> exists|a: Seq<char>, b: Seq<char>|
            name == #[trigger] (a + "UnknownObject"@ + b),
{
    let word = "UnknownObject"@;
    if name == front + word + back {
        assert(name.subrange(front.len() as int, (front.len() + word.len()) as int) =~= word);
        assert(crate::text::occurs_at(name, word, front.len() as int));
    }
    if crate::text::occurs_in(name, UNKNOWN_OBJECT@) {
        let at = choose|at: int| crate::text::occurs_at(name, word, at);
        let a = name.take(at);
        let b = name.skip(at + word.len());
        assert(name =~= a + name.subrange(at, at + word.len()) + b);
        assert(name == a + word + b);
    }
}

/// A rediscovery goes on with the last of the listed devices that goes by the
/// name, and with the device that there was where none does.
pub proof fn lemma_rediscover<D>(
    current: DeviceInfo<D>,
    listed: Vec<DeviceInfo<D>>,
    name: &String,
    found: DeviceInfo<D>,
    i: int,
)
    requires
        call_ensures(rediscover::<D>, (current, listed, name), found),
    ensures
        call_requires(rediscover::<D>, (current, listed, name)),
        (forall|j: int|
            0 <= j < listed@.len() ==> (#[trigger] listed@[j]).name is None
                || listed@[j].name->0@ != name@) ==> found == current,
        (0 <= i < listed@.len() && listed@[i].name is Some && listed@[i].name->0@ == name@ && forall|
            j: int,
        |
            i < j < listed@.len() ==> (#[trigger] listed@[j]).name is None || listed@[j].name->0@
                != name@) ==> found == listed@[i],
{
    if 0 <= i < listed@.len() && listed@[i].name is Some && listed@[i].name->0@ == name@ {
        assert(has_name(listed@[i], name@));
    }
    if forall|j: int|
        0 <= j < listed@.len() ==> (#[trigger] listed@[j]).name is None || listed@[j].name->0@
            != name@ {
        assert(forall|j: int| 0 <= j < listed@.len() ==> !has_name(#[trigger] listed@[j], name@));
    }
}

/// The devices that can be asked for are all that have a name and no others, in
/// the order in which they were listed, each under its own name.
pub proof fn lemma_named_devices<D>(
    listed: Vec<DeviceInfo<D>>,
    names: Vec<String>,
    devices: Vec<DeviceInfo<D>>,
)
    requires
        call_ensures(named_devices::<D>, (listed,), (names, devices)),
    ensures
        call_requires(named_devices::<D>, (listed,)),
        devices@ == listed@.filter(|device: DeviceInfo<D>| device.name is Some),
        names@.len() == devices@.len(),
        forall|i: int|
            0 <= i < names@.len() ==> devices@[i].name is Some && devices@[i].name->0@ == (
            #[trigger] names@[i])@,
{
}

/// A new actor has the name and the device that it was given, takes it for
/// connected, and has found and opened nothing yet.
pub proof fn lemma_new_actor<D, A, O, R>(
    name: &str,
    device: DeviceInfo<D>,
    actor: DeviceActor<D, A, O, R>,
)
    requires
        call_ensures(DeviceActor::<D, A, O, R>::new, (name, device), actor),
    ensures
        call_requires(DeviceActor::<D, A, O, R>::new, (name, device)),
        actor.wf(),
        actor.name@ == name@,
        actor.device == device,
        actor.connected,
        actor.adapter is None,
        actor.data_id is None,
        actor.outlet is None,
        actor.phase is Created,
{
}

/// All that an actor cannot take in is a reply to `GetPower` that is too short for
/// what it announces, and a list of adapters that names none, where it has asked
/// for one.
pub proof fn lemma_can_take<D, A, O, R, E>(
    actor: DeviceActor<D, A, O, R>,
    event: ActorEvent<D, A, O, R, E>,
    taken: bool,
)
    requires
        call_ensures(DeviceActor::<D, A, O, R>::can_take::<E>, (&actor, &event), taken),
    ensures
        call_requires(DeviceActor::<D, A, O, R>::can_take::<E>, (&actor, &event)),
        !taken <==> {
            ||| actor.phase is ReadingPower && (event matches ActorEvent::Read(Ok(reply)) && (
            reply@.len() <= 3 || reply@.len() == 4 && reply@[3] == 0))
            ||| actor.phase is ListingAdapters && (event matches ActorEvent::Adapters(
                Ok(adapters),
            ) && adapters@.len() == 0)
        },
        taken && actor.wf() ==> call_requires(
            DeviceActor::<D, A, O, R>::step::<E>,
            (actor, event),
        ),
{
}

} // verus!
