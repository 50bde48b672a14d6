//! The actor that owns the connection to one device where Bluetooth is reached
//! through an interface that is the same on all platforms.
//!
//! It is driven as a `DeviceActor` is. An operation that fails here takes the
//! whole actor down, so the outcome of an operation is not part of its event.

use crate::mitch::{find_uuid, stream_of, word_sample, StreamSpec, COMMAND_CHAR, DATA_CHAR,
    WORD_PACKET};
use vstd::prelude::*;

verus! {

/// What the actor is told to do.
#[derive(Debug, PartialEq, Eq)]
pub enum BtleCommand {
    StartRecording { lsl_stream_name: String },
    Shutdown,
}

/// What the actor is waiting for.
#[derive(Debug, PartialEq, Eq)]
pub enum BtlePhase {
    Created,
    Subscribing,
    /// For a command or a notification.
    Idle,
    OpeningOutlet,
    EnablingNotify { characteristics: Vec<u128> },
    Writing { index: usize },
    Reading,
    Disconnecting,
    Removing,
    Finished,
    /// Without any notifications.
    Abandoned,
}

/// What happened.
#[derive(Debug, PartialEq, Eq)]
pub enum BtleEvent<O> {
    /// The actor was spawned.
    Started,
    /// Whether the stream of notifications is open.
    Subscribed(bool),
    /// A command, or `None` where no further command can come.
    Command(Option<BtleCommand>),
    /// A new value, or `None` where no further value can come.
    Notified(Option<Vec<u8>>),
    /// The outlet is open, and the device has characteristics with these UUIDs.
    OutletOpened { outlet: O, characteristics: Vec<u128> },
    /// The operation was done.
    Done,
}

/// What the driver has to do.
#[derive(Debug, PartialEq, Eq)]
pub enum BtleAction {
    /// Open the stream of notifications.
    Subscribe,
    /// Wait for a command or a notification.
    Await,
    /// Open an outlet for this stream and say which characteristics there are.
    OpenOutlet(StreamSpec),
    /// Have the characteristic at this position notify.
    StartNotify { index: usize },
    /// Write `StartPressureStream` to the characteristic at this position, with
    /// response.
    WriteStart { index: usize },
    /// Read the characteristic at this position.
    Read { index: usize },
    /// Push the sample into the outlet and wait on.
    Push(Vec<i16>),
    Disconnect,
    /// Take the entry with the actor's name out of the device map.
    RemoveEntry,
    /// The actor is done.
    Finish,
    /// The actor ends at once, and its entry stays.
    Abandon,
    /// The event was not what the actor waits for; it still waits.
    Ignore,
}

/// The state of an actor. `O` is what the driver addresses an outlet by.
#[derive(Debug, PartialEq, Eq)]
pub struct BtleActor<O> {
    pub name: String,
    /// The outlet that samples are pushed into, once recording has started.
    pub outlet: Option<O>,
    pub phase: BtlePhase,
}

impl<O> BtleActor<O> {
    /// Whether the event can be taken in: the device has the characteristics that
    /// are looked for, and data to be recorded is complete.
    pub open spec fn accepts(self, event: BtleEvent<O>) -> bool {
        match (self.phase, event) {
            (
                BtlePhase::Idle,
                BtleEvent::Notified(Some(data)),
            ) => self.outlet is Some ==> data@.len() >= WORD_PACKET,
            (
                BtlePhase::OpeningOutlet,
                BtleEvent::OutletOpened { characteristics, .. },
            ) => characteristics@.contains(DATA_CHAR),
            (
                BtlePhase::EnablingNotify { characteristics },
                BtleEvent::Done,
            ) => characteristics@.contains(COMMAND_CHAR),
            _ => true,
        }
    }

    /// The actor with another phase.
    pub open spec fn in_phase(self, phase: BtlePhase) -> Self {
        BtleActor { phase, ..self }
    }
}

/// Whether an actor that was `before` becomes `after` and asks for `action` when
/// `event` happens.
pub open spec fn transition<O>(
    before: BtleActor<O>,
    event: BtleEvent<O>,
    after: BtleActor<O>,
    action: BtleAction,
) -> bool {
    match (before.phase, event) {
        (BtlePhase::Created, BtleEvent::Started) => {
            &&& after == before.in_phase(BtlePhase::Subscribing)
            &&& action == BtleAction::Subscribe
        },
        (BtlePhase::Subscribing, BtleEvent::Subscribed(open)) => if open {
            &&& after == before.in_phase(BtlePhase::Idle)
            &&& action == BtleAction::Await
        } else {
            &&& after == before.in_phase(BtlePhase::Abandoned)
            &&& action == BtleAction::Abandon
        },
        (BtlePhase::Idle, BtleEvent::Command(Some(BtleCommand::StartRecording { .. }))) => {
            &&& after == before.in_phase(BtlePhase::OpeningOutlet)
            &&& action matches BtleAction::OpenOutlet(stream)
            &&& crate::mitch::is_stream_of(stream, before.name)
        },
        (BtlePhase::Idle, BtleEvent::Command(Some(BtleCommand::Shutdown))) => cleans_up(
            before,
            after,
            action,
        ),
        (BtlePhase::Idle, BtleEvent::Command(None)) => cleans_up(before, after, action),
        (BtlePhase::Idle, BtleEvent::Notified(Some(data))) => {
            &&& after == before
            &&& if before.outlet is Some {
                action matches BtleAction::Push(sample) && sample@ == crate::mitch::word_values(
                    data@,
                )
            } else {
                action == BtleAction::Await
            }
        },
        (BtlePhase::Idle, BtleEvent::Notified(None)) => cleans_up(before, after, action),
        (BtlePhase::OpeningOutlet, BtleEvent::OutletOpened { outlet, characteristics }) => {
            &&& after == (BtleActor {
                outlet: Some(outlet),
                phase: BtlePhase::EnablingNotify { characteristics },
                ..before
            })
            &&& action matches BtleAction::StartNotify { index }
            &&& crate::mitch::is_first_uuid(characteristics@, DATA_CHAR, index as int)
        },
        (BtlePhase::EnablingNotify { characteristics }, BtleEvent::Done) => {
            &&& action matches BtleAction::WriteStart { index }
            &&& crate::mitch::is_first_uuid(characteristics@, COMMAND_CHAR, index as int)
            &&& after == before.in_phase(BtlePhase::Writing { index })
        },
        (BtlePhase::Writing { index }, BtleEvent::Done) => {
            &&& after == before.in_phase(BtlePhase::Reading)
            &&& action == BtleAction::Read { index }
        },
        (BtlePhase::Reading, BtleEvent::Done) => {
            &&& after == before.in_phase(BtlePhase::Idle)
            &&& action == BtleAction::Await
        },
        (BtlePhase::Disconnecting, BtleEvent::Done) => {
            &&& after == before.in_phase(BtlePhase::Removing)
            &&& action == BtleAction::RemoveEntry
        },
        (BtlePhase::Removing, BtleEvent::Done) => {
            &&& after == before.in_phase(BtlePhase::Finished)
            &&& action == BtleAction::Finish
        },
        _ => after == before && action == BtleAction::Ignore,
    }
}

/// The actor starts to clean up.
pub open spec fn cleans_up<O>(
    before: BtleActor<O>,
    after: BtleActor<O>,
    action: BtleAction,
) -> bool {
    &&& after == before.in_phase(BtlePhase::Disconnecting)
    &&& action == BtleAction::Disconnect
}

impl<O> BtleActor<O> {
    /// An actor for a device that is connected, before it is spawned.
    #[must_use]
    pub fn new(name: String) -> (actor: Self)
        ensures
            actor.name == name,
            actor.outlet is None,
            actor.phase is Created,
    {
        BtleActor { name, outlet: None, phase: BtlePhase::Created }
    }

    /// Whether the event can be taken in.
    pub fn can_take(&self, event: &BtleEvent<O>) -> (taken: bool)
        ensures
            taken == self.accepts(*event),
    {
        match (&self.phase, event) {
            (BtlePhase::Idle, BtleEvent::Notified(Some(data))) => self.outlet.is_none()
                || data.len() >= WORD_PACKET,
            (
                BtlePhase::OpeningOutlet,
                BtleEvent::OutletOpened { characteristics, .. },
            ) => find_uuid(characteristics, DATA_CHAR).is_some(),
            (
                BtlePhase::EnablingNotify { characteristics },
                BtleEvent::Done,
            ) => find_uuid(characteristics, COMMAND_CHAR).is_some(),
            _ => true,
        }
    }

    /// What the actor does when `event` happens.
    pub fn step(self, event: BtleEvent<O>) -> (result: (Self, BtleAction))
        requires
            self.accepts(event),
        ensures
            transition(self, event, result.0, result.1),
    {
        match (self.phase, event) {
            (BtlePhase::Created, BtleEvent::Started) => (
                BtleActor { phase: BtlePhase::Subscribing, ..self },
                BtleAction::Subscribe,
            ),
            (BtlePhase::Subscribing, BtleEvent::Subscribed(open)) => {
                if open {
                    (BtleActor { phase: BtlePhase::Idle, ..self }, BtleAction::Await)
                } else {
                    (BtleActor { phase: BtlePhase::Abandoned, ..self }, BtleAction::Abandon)
                }
            },
            (BtlePhase::Idle, BtleEvent::Command(Some(BtleCommand::StartRecording { .. }))) => {
                let stream = stream_of(&self.name);
                (
                    BtleActor { phase: BtlePhase::OpeningOutlet, ..self },
                    BtleAction::OpenOutlet(stream),
                )
            },
            (BtlePhase::Idle, BtleEvent::Command(Some(BtleCommand::Shutdown))) => (
                BtleActor { phase: BtlePhase::Disconnecting, ..self },
                BtleAction::Disconnect,
            ),
            (BtlePhase::Idle, BtleEvent::Command(None)) => (
                BtleActor { phase: BtlePhase::Disconnecting, ..self },
                BtleAction::Disconnect,
            ),
            (BtlePhase::Idle, BtleEvent::Notified(Some(data))) => {
                if self.outlet.is_some() {
                    let sample = word_sample(&data);
                    (BtleActor { phase: BtlePhase::Idle, ..self }, BtleAction::Push(sample))
                } else {
                    (BtleActor { phase: BtlePhase::Idle, ..self }, BtleAction::Await)
                }
            },
            (BtlePhase::Idle, BtleEvent::Notified(None)) => (
                BtleActor { phase: BtlePhase::Disconnecting, ..self },
                BtleAction::Disconnect,
            ),
            (BtlePhase::OpeningOutlet, BtleEvent::OutletOpened { outlet, characteristics }) => {
                let index: usize = find_uuid(&characteristics, DATA_CHAR).unwrap();
                (
                    BtleActor {
                        outlet: Some(outlet),
                        phase: BtlePhase::EnablingNotify { characteristics },
                        ..self
                    },
                    BtleAction::StartNotify { index },
                )
            },
            (BtlePhase::EnablingNotify { characteristics }, BtleEvent::Done) => {
                let index: usize = find_uuid(&characteristics, COMMAND_CHAR).unwrap();
                (
                    BtleActor { phase: BtlePhase::Writing { index }, ..self },
                    BtleAction::WriteStart { index },
                )
            },
            (BtlePhase::Writing { index }, BtleEvent::Done) => (
                BtleActor { phase: BtlePhase::Reading, ..self },
                BtleAction::Read { index },
            ),
            (BtlePhase::Reading, BtleEvent::Done) => (
                BtleActor { phase: BtlePhase::Idle, ..self },
                BtleAction::Await,
            ),
            (BtlePhase::Disconnecting, BtleEvent::Done) => (
                BtleActor { phase: BtlePhase::Removing, ..self },
                BtleAction::RemoveEntry,
            ),
            (BtlePhase::Removing, BtleEvent::Done) => (
                BtleActor { phase: BtlePhase::Finished, ..self },
                BtleAction::Finish,
            ),
            (phase, _) => (BtleActor { phase, ..self }, BtleAction::Ignore),
        }
    }
}

/// An actor keeps its name, and it has an outlet for good once it has one.
pub proof fn lemma_name_and_outlet_kept<O>(
    before: BtleActor<O>,
    event: BtleEvent<O>,
    after: BtleActor<O>,
    action: BtleAction,
)
    requires
        transition(before, event, after, action),
    ensures
        after.name == before.name,
        before.outlet is Some ==> after.outlet is Some,
        after.outlet != before.outlet ==> (event matches BtleEvent::OutletOpened { outlet, .. }
            && after.outlet == Some(outlet)),
{
}

/// A sample is pushed for each value that comes while an outlet is open, and for
/// nothing else. It has three words.
pub proof fn lemma_push_iff_recording<O>(
    before: BtleActor<O>,
    event: BtleEvent<O>,
    after: BtleActor<O>,
    action: BtleAction,
)
    requires
        transition(before, event, after, action),
    ensures
        action is Push <==> before.phase is Idle && before.outlet is Some && (event
            matches BtleEvent::Notified(Some(_))),
        action matches BtleAction::Push(sample) ==> sample@.len() == 3,
        action matches BtleAction::Push(sample) ==> {
            &&& event matches BtleEvent::Notified(Some(data))
            &&& forall|k: int|
                0 <= k < 3 ==> (#[trigger] sample@[k]) as int == data@[4 + 2 * k] + 256 * data@[5
                    + 2 * k] - if data@[5 + 2 * k] >= 128 {
                    65536int
                } else {
                    0
                }
        },
{
}

/// Telling an idle actor to record opens an outlet for the device's stream, has
/// the data characteristic notify, writes the command to the command
/// characteristic and reads the reply from it. The actor is then idle again,
/// with the outlet.
pub proof fn lemma_recording_starts<O>(
    actors: Seq<BtleActor<O>>,
    stream_name: String,
    outlet: O,
    characteristics: Vec<u128>,
    actions: Seq<BtleAction>,
)
    requires
        actors.len() == 6,
        actions.len() == 5,
        actors[0].phase is Idle,
        transition(
            actors[0],
            BtleEvent::<O>::Command(
                Some(BtleCommand::StartRecording { lsl_stream_name: stream_name }),
            ),
            actors[1],
            actions[0],
        ),
        transition(
            actors[1],
            BtleEvent::OutletOpened { outlet, characteristics },
            actors[2],
            actions[1],
        ),
        transition(actors[2], BtleEvent::<O>::Done, actors[3], actions[2]),
        transition(actors[3], BtleEvent::<O>::Done, actors[4], actions[3]),
        transition(actors[4], BtleEvent::<O>::Done, actors[5], actions[4]),
    ensures
        actors[5] == (BtleActor { outlet: Some(outlet), ..actors[0] }),
        actions[0] matches BtleAction::OpenOutlet(stream) && crate::mitch::is_stream_of(
            stream,
            actors[0].name,
        ),
        actions[1] matches BtleAction::StartNotify { index } && characteristics@[index as int]
            == DATA_CHAR,
        actions[2] matches BtleAction::WriteStart { index } && characteristics@[index as int]
            == COMMAND_CHAR && (actions[3] == (BtleAction::Read { index })),
        actions[4] is Await,
{
}

/// However an idle actor is stopped, it disconnects, takes its entry out of the
/// device map and is done.
pub proof fn lemma_clean_up<O>(
    actors: Seq<BtleActor<O>>,
    event: BtleEvent<O>,
    actions: Seq<BtleAction>,
)
    requires
        actors.len() == 4,
        actions.len() == 3,
        actors[0].phase is Idle,
        event == BtleEvent::<O>::Command(Some(BtleCommand::Shutdown)) || event == BtleEvent::<
            O,
        >::Command(None) || event == BtleEvent::<O>::Notified(None),
        transition(actors[0], event, actors[1], actions[0]),
        transition(actors[1], BtleEvent::<O>::Done, actors[2], actions[1]),
        transition(actors[2], BtleEvent::<O>::Done, actors[3], actions[2]),
    ensures
        actors[3] == actors[0].in_phase(BtlePhase::Finished),
        actions == seq![BtleAction::Disconnect, BtleAction::RemoveEntry, BtleAction::Finish],
{
}

/// An actor that has ended does nothing any more.
pub proof fn lemma_end_is_final<O>(
    before: BtleActor<O>,
    event: BtleEvent<O>,
    after: BtleActor<O>,
    action: BtleAction,
)
    requires
        transition(before, event, after, action),
        before.phase is Finished || before.phase is Abandoned,
    ensures
        after == before,
        action is Ignore,
{
}

/// The samples that were pushed, in order.
pub open spec fn pushed(actions: Seq<BtleAction>) -> Seq<Seq<i16>>
    decreases actions.len(),
{
    if actions.len() == 0 {
        Seq::empty()
    } else {
        match actions.last() {
            BtleAction::Push(sample) => pushed(actions.drop_last()).push(sample@),
            _ => pushed(actions.drop_last()),
        }
    }
}

/// The values of all data that came while the actor was idle with an outlet, in
/// order.
pub open spec fn recorded<O>(actors: Seq<BtleActor<O>>, events: Seq<BtleEvent<O>>) -> Seq<Seq<i16>>
    decreases events.len(),
{
    if events.len() == 0 {
        Seq::empty()
    } else {
        let before = recorded(actors.drop_last(), events.drop_last());
        let actor = actors[events.len() - 1];
        match events.last() {
            BtleEvent::Notified(Some(data)) => if actor.phase is Idle && actor.outlet is Some {
                before.push(crate::mitch::word_values(data@))
            } else {
                before
            },
            _ => before,
        }
    }
}

/// The samples reach the outlet in the order in which the data came: none is
/// lost, none comes twice, and nothing else is pushed.
pub proof fn lemma_samples_in_order<O>(
    actors: Seq<BtleActor<O>>,
    events: Seq<BtleEvent<O>>,
    actions: Seq<BtleAction>,
)
    requires
        actors.len() == events.len() + 1,
        actions.len() == events.len(),
        forall|i: int|
            0 <= i < events.len() ==> transition(
                actors[i],
                #[trigger] events[i],
                actors[i + 1],
                actions[i],
            ),
    ensures
        pushed(actions) == recorded(actors, events),
    decreases events.len(),
{
    if events.len() > 0 {
        let n = events.len() - 1;
        let (earlier, before, done) = (actors.drop_last(), events.drop_last(), actions.drop_last());
        assert forall|i: int| 0 <= i < before.len() implies transition(
            earlier[i],
            #[trigger] before[i],
            earlier[i + 1],
            done[i],
        ) by {
            assert(transition(actors[i], events[i], actors[i + 1], actions[i]));
        }
        lemma_samples_in_order(earlier, before, done);
        assert(transition(actors[n], events[n], actors[n + 1], actions[n]));
    }
}

/// A new actor has the name that it was given, and no outlet.
pub proof fn lemma_new_actor<O>(name: String, actor: BtleActor<O>)
    requires
        call_ensures(BtleActor::<O>::new, (name,), actor),
    ensures
        call_requires(BtleActor::<O>::new, (name,)),
        actor.name == name,
        actor.outlet is None,
        actor.phase is Created,
{
}

/// All that an actor cannot take in is a value of fewer than ten bytes while it is
/// recording, and a device without the characteristic that is looked for.
pub proof fn lemma_can_take<O>(actor: BtleActor<O>, event: BtleEvent<O>, taken: bool)
    requires
        call_ensures(BtleActor::<O>::can_take, (&actor, &event), taken),
    ensures
        call_requires(BtleActor::<O>::can_take, (&actor, &event)),
        !taken <==> {
            ||| actor.phase is Idle && actor.outlet is Some && (event
                matches BtleEvent::Notified(Some(data)) && data@.len() < 10)
            ||| actor.phase is OpeningOutlet && (event matches BtleEvent::OutletOpened {
                characteristics,
                ..
            } && !characteristics@.contains(DATA_CHAR))
            ||| event is Done && (actor.phase matches BtlePhase::EnablingNotify {
                characteristics,
            } && !characteristics@.contains(COMMAND_CHAR))
        },
        taken ==> call_requires(BtleActor::<O>::step, (actor, event)),
{
}

/// An actor takes in only what it waits for; anything else changes nothing of it.
/// Its name never changes, and its outlet only by opening one.
pub proof fn lemma_waits<O>(
    before: BtleActor<O>,
    event: BtleEvent<O>,
    after: BtleActor<O>,
    action: BtleAction,
)
    requires
        call_ensures(BtleActor::<O>::step, (before, event), (after, action)),
    ensures
        action is Ignore <==> !(match event {
            BtleEvent::Started => before.phase is Created,
            BtleEvent::Subscribed(_) => before.phase is Subscribing,
            BtleEvent::Command(_) => before.phase is Idle,
            BtleEvent::Notified(_) => before.phase is Idle,
            BtleEvent::OutletOpened { .. } => before.phase is OpeningOutlet,
            BtleEvent::Done => before.phase is EnablingNotify || before.phase is Writing
                || before.phase is Reading || before.phase is Disconnecting || before.phase
                is Removing,
        }),
        action is Ignore ==> after == before,
        after.name == before.name,
        after.outlet == (match event {
            BtleEvent::OutletOpened { outlet, .. } if before.phase is OpeningOutlet => Some(outlet),
            _ => before.outlet,
        }),
{
}

/// An actor that is spawned has notifications opened. It then waits, or ends at
/// once where there are none.
pub proof fn lemma_when_setting_up<O>(
    before: BtleActor<O>,
    event: BtleEvent<O>,
    after: BtleActor<O>,
    action: BtleAction,
)
    requires
        call_ensures(BtleActor::<O>::step, (before, event), (after, action)),
    ensures
        action is Subscribe <==> before.phase is Created && event is Started,
        action is Subscribe ==> after.phase is Subscribing,
        action is Abandon <==> before.phase is Subscribing && event == BtleEvent::<
            O,
        >::Subscribed(false),
        action is Abandon ==> after.phase is Abandoned,
        before.phase is Subscribing && event == BtleEvent::<O>::Subscribed(true) ==> action is Await
            && after.phase is Idle,
{
}

/// An outlet is opened exactly when an idle actor is told to record, for a stream
/// that goes by the actor's name. Once it is open, the first data characteristic
/// is told to notify, the first command characteristic is written to and read from;
/// then the actor waits.
pub proof fn lemma_when_recording_starts<O>(
    before: BtleActor<O>,
    event: BtleEvent<O>,
    after: BtleActor<O>,
    action: BtleAction,
)
    requires
        call_ensures(BtleActor::<O>::step, (before, event), (after, action)),
    ensures
        action is OpenOutlet <==> before.phase is Idle && (event matches BtleEvent::Command(
            Some(BtleCommand::StartRecording { .. }),
        )),
        action matches BtleAction::OpenOutlet(stream) ==> {
            &&& after.phase is OpeningOutlet
            &&& stream.name@ == before.name@
            &&& stream.source_id@ == before.name@
            &&& stream.stream_type@ == "Pressure"@
            &&& stream.channel_count == 16
            &&& stream.rate_hz == 50
            &&& stream.chunk_size == 1
            &&& stream.max_buffered == 360
        },
        action is StartNotify <==> before.phase is OpeningOutlet && event is OutletOpened,
        action matches BtleAction::StartNotify { index } ==> {
            &&& event matches BtleEvent::OutletOpened { characteristics, .. }
            &&& after.phase == (BtlePhase::EnablingNotify { characteristics })
            &&& index < characteristics@.len()
            &&& characteristics@[index as int] == DATA_CHAR
            &&& forall|i: int| 0 <= i < index ==> characteristics@[i] != DATA_CHAR
        },
        action is WriteStart <==> before.phase is EnablingNotify && event is Done,
        action matches BtleAction::WriteStart { index } ==> {
            &&& before.phase matches BtlePhase::EnablingNotify { characteristics }
            &&& after.phase == (BtlePhase::Writing { index })
            &&& index < characteristics@.len()
            &&& characteristics@[index as int] == COMMAND_CHAR
            &&& forall|i: int| 0 <= i < index ==> characteristics@[i] != COMMAND_CHAR
        },
        action is Read <==> before.phase is Writing && event is Done,
        action matches BtleAction::Read { index } ==> before.phase == (BtlePhase::Writing { index })
            && after.phase is Reading,
        before.phase is Reading && event is Done ==> action is Await && after.phase is Idle,
{
}

/// A sample is pushed exactly when a value comes to an idle actor with an outlet.
/// It is three numbers, each of two bytes after the fourth, the low one first, in
/// two's complement; no other byte matters, nor how many there are. Without an
/// outlet the actor just waits on.
pub proof fn lemma_when_pushing<O>(
    before: BtleActor<O>,
    event: BtleEvent<O>,
    after: BtleActor<O>,
    action: BtleAction,
)
    requires
        call_ensures(BtleActor::<O>::step, (before, event), (after, action)),
    ensures
        action is Push <==> before.phase is Idle && before.outlet is Some && (event
            matches BtleEvent::Notified(Some(_))),
        action matches BtleAction::Push(sample) ==> {
            &&& after == before
            &&& event matches BtleEvent::Notified(Some(data))
            &&& sample@.len() == 3
            &&& forall|k: int|
                0 <= k < 3 ==> (#[trigger] sample@[k]) as int == data@[4 + 2 * k] + 256 * data@[5
                    + 2 * k] - if data@[5 + 2 * k] >= 128 {
                    65536int
                } else {
                    0
                }
        },
        before.phase is Idle && before.outlet is None && (event
            matches BtleEvent::Notified(Some(_))) ==> action is Await && after == before,
{
}

/// An actor disconnects exactly when it is idle and is told to shut down or can get
/// no further command or value. It then takes its entry out and is done.
pub proof fn lemma_when_cleaning_up<O>(
    before: BtleActor<O>,
    event: BtleEvent<O>,
    after: BtleActor<O>,
    action: BtleAction,
)
    requires
        call_ensures(BtleActor::<O>::step, (before, event), (after, action)),
    ensures
        action is Disconnect <==> before.phase is Idle && {
            ||| event matches BtleEvent::Command(Some(BtleCommand::Shutdown))
            ||| event matches BtleEvent::Command(None)
            ||| event matches BtleEvent::Notified(None)
        },
        action is Disconnect ==> after.phase is Disconnecting,
        action is RemoveEntry <==> before.phase is Disconnecting && event is Done,
        action is RemoveEntry ==> after.phase is Removing,
        action is Finish <==> before.phase is Removing && event is Done,
        action is Finish ==> after.phase is Finished,
{
}

} // verus!
