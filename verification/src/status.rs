//! How the running actors are asked for their status.
//!
//! The actors are asked one after the other. Whoever drives this asks the actor
//! that a step names, and hands back what it answered as the next event.

use crate::device_map::DeviceMap;
use crate::protocol::{DaemonResponse, DeviceStatus};
use crate::request::{RequestAction, RequestEvent, RequestState};
use vstd::prelude::*;

verus! {

/// How far the asking has come.
#[derive(Debug, PartialEq, Eq)]
pub enum StatusPhase {
    Created,
    /// The actor that is visited as number `index` was asked; those before it
    /// gave these answers.
    Asking { index: usize, answers: Vec<DeviceStatus> },
    Over,
}

/// What happened.
#[derive(Debug, PartialEq, Eq)]
pub enum StatusEvent {
    Started,
    /// What the actor answered, or `None` where it gave no answer.
    Answered(Option<DeviceStatus>),
}

/// What the driver has to do.
#[derive(Debug, PartialEq, Eq)]
pub enum StatusAction {
    /// Ask the actor that is visited as number `index`, and wait for its answer.
    Ask { index: usize },
    /// These are the answers.
    Finish(Vec<DeviceStatus>),
    /// The event was not what is waited for; it still is.
    Ignore,
}

/// The answers with one more, if it was given.
pub open spec fn with_answer(
    answers: Seq<DeviceStatus>,
    answer: Option<DeviceStatus>,
) -> Seq<DeviceStatus> {
    match answer {
        Some(status) => answers.push(status),
        None => answers,
    }
}

/// The answers that were given, in the order of the asking.
pub open spec fn answers_in(replies: Seq<Option<DeviceStatus>>) -> Seq<DeviceStatus>
    decreases replies.len(),
{
    if replies.len() == 0 {
        Seq::empty()
    } else {
        with_answer(answers_in(replies.drop_last()), replies.last())
    }
}

/// Actor number `index` is asked next, where there is one; otherwise `answers`
/// is what the asking yields.
pub open spec fn asks_next(
    index: int,
    answers: Seq<DeviceStatus>,
    entries: int,
    next: StatusPhase,
    action: StatusAction,
) -> bool {
    if index < entries {
        &&& next matches StatusPhase::Asking { index: asked, answers: held }
        &&& asked == index
        &&& held@ == answers
        &&& action == StatusAction::Ask { index: asked }
    } else {
        &&& next is Over
        &&& action matches StatusAction::Finish(told)
        &&& told@ == answers
    }
}

/// Whether the asking goes over from `phase` to `next` and asks for `action` when
/// `event` happens, where there are `entries` actors.
pub open spec fn asks(
    phase: StatusPhase,
    event: StatusEvent,
    entries: int,
    next: StatusPhase,
    action: StatusAction,
) -> bool {
    match (phase, event) {
        (StatusPhase::Created, StatusEvent::Started) => asks_next(
            0,
            Seq::empty(),
            entries,
            next,
            action,
        ),
        (StatusPhase::Asking { index, answers }, StatusEvent::Answered(answer)) => asks_next(
            index + 1,
            with_answer(answers@, answer),
            entries,
            next,
            action,
        ),
        _ => next == phase && action is Ignore,
    }
}

/// Takes the asking on when `event` happens, where there are `entries` actors.
pub fn ask_actors(phase: StatusPhase, event: StatusEvent, entries: usize) -> (result: (
    StatusPhase,
    StatusAction,
))
    ensures
        asks(phase, event, entries as int, result.0, result.1),
{
    match (phase, event) {
        (StatusPhase::Created, StatusEvent::Started) => {
            if entries > 0 {
                (
                    StatusPhase::Asking { index: 0, answers: Vec::new() },
                    StatusAction::Ask { index: 0 },
                )
            } else {
                (StatusPhase::Over, StatusAction::Finish(Vec::new()))
            }
        },
        (StatusPhase::Asking { index, answers }, StatusEvent::Answered(answer)) => {
            let mut answers = answers;
            if let Some(status) = answer {
                answers.push(status);
            }
            if index < entries && index + 1 < entries {
                let index: usize = index + 1;
                (StatusPhase::Asking { index, answers }, StatusAction::Ask { index })
            } else {
                (StatusPhase::Over, StatusAction::Finish(answers))
            }
        },
        (phase, _) => (phase, StatusAction::Ignore),
    }
}

/// A stretch of asking: the phases, what each actor replied, and the actions.
pub open spec fn is_asking(
    phases: Seq<StatusPhase>,
    replies: Seq<Option<DeviceStatus>>,
    actions: Seq<StatusAction>,
    entries: int,
) -> bool {
    &&& phases.len() == replies.len() + 2
    &&& actions.len() == replies.len() + 1
    &&& phases[0] is Created
    &&& asks(phases[0], StatusEvent::Started, entries, phases[1], actions[0])
    &&& forall|i: int|
        0 <= i < replies.len() ==> asks(
            phases[i + 1],
            StatusEvent::Answered(#[trigger] replies[i]),
            entries,
            phases[i + 2],
            actions[i + 1],
        )
}

proof fn lemma_asked(
    phases: Seq<StatusPhase>,
    replies: Seq<Option<DeviceStatus>>,
    actions: Seq<StatusAction>,
    entries: int,
    n: int,
)
    requires
        is_asking(phases, replies, actions, entries),
        0 <= n <= replies.len() <= entries <= usize::MAX,
    ensures
        asks_next(n, answers_in(replies.take(n)), entries, phases[n + 1], actions[n]),
    decreases n,
{
    if n > 0 {
        lemma_asked(phases, replies, actions, entries, n - 1);
        assert(replies.take(n).drop_last() =~= replies.take(n - 1));
        assert(replies.take(n).last() == replies[n - 1]);
        assert(asks(
            phases[n],
            StatusEvent::Answered(replies[n - 1]),
            entries,
            phases[n + 1],
            actions[n],
        ));
    } else {
        assert(replies.take(0) =~= Seq::empty());
    }
}

/// Every actor in the device map is asked, each once and in the visiting order.
/// What comes of it is the answers that were given, in that order; an actor that
/// gave none is left out.
pub proof fn lemma_every_actor_asked<T>(
    map: DeviceMap<T>,
    phases: Seq<StatusPhase>,
    replies: Seq<Option<DeviceStatus>>,
    actions: Seq<StatusAction>,
)
    requires
        map.wf(),
        map.order().len() <= usize::MAX,
        replies.len() == map.order().len(),
        is_asking(phases, replies, actions, map.order().len() as int),
    ensures
        forall|i: int|
            0 <= i < replies.len() ==> #[trigger] actions[i] == (StatusAction::Ask {
                index: i as usize,
            }),
        map.order().no_duplicates(),
        map.order().to_set() == map@.dom(),
        actions.last() matches StatusAction::Finish(told) && told@ == answers_in(replies),
        actions.last() matches StatusAction::Finish(told) && told@ == replies.filter(
            |reply: Option<DeviceStatus>| reply is Some,
        ).map_values(|reply: Option<DeviceStatus>| reply->0),
        phases.last() is Over,
{
    lemma_answers_are_the_replies(replies);
    let entries = map.order().len() as int;
    crate::device_map::lemma_order(map);
    assert forall|i: int| 0 <= i < replies.len() implies #[trigger] actions[i] == (
    StatusAction::Ask { index: i as usize }) by {
        lemma_asked(phases, replies, actions, entries, i);
    }
    lemma_asked(phases, replies, actions, entries, entries);
    assert(replies.take(entries) =~= replies);
}

/// Where every actor answers, the answers are theirs, one for each.
pub proof fn lemma_all_answers_kept(replies: Seq<Option<DeviceStatus>>)
    requires
        forall|i: int| 0 <= i < replies.len() ==> (#[trigger] replies[i]) is Some,
    ensures
        answers_in(replies).len() == replies.len(),
        forall|i: int|
            0 <= i < replies.len() ==> Some(#[trigger] answers_in(replies)[i]) == replies[i],
    decreases replies.len(),
{
    if replies.len() > 0 {
        let rest = replies.drop_last();
        assert forall|i: int| 0 <= i < rest.len() implies (#[trigger] rest[i]) is Some by {
            assert(rest[i] == replies[i]);
        }
        lemma_all_answers_kept(rest);
        assert(replies[replies.len() - 1] is Some);
        assert forall|i: int| 0 <= i < replies.len() implies Some(
            #[trigger] answers_in(replies)[i],
        ) == replies[i] by {
            if i < rest.len() {
                assert(rest[i] == replies[i]);
                assert(answers_in(replies)[i] == answers_in(rest)[i]);
            }
        }
    }
}

/// A request for the status is answered with what the asking yielded, and leaves
/// the device map as it is.
pub proof fn lemma_status_request<'a, T, E>(
    answers: Vec<DeviceStatus>,
    before: Map<Seq<char>, T>,
    after: Map<Seq<char>, T>,
    next: RequestState,
    action: RequestAction<'a, T, E>,
)
    requires
        crate::request::advances(
            RequestState::AskingStatus,
            RequestEvent::<T, E>::Statuses(answers),
            before,
            after,
            next,
            action,
        ),
    ensures
        action matches RequestAction::Answer(DaemonResponse::Statuses(told)) && told == answers,
        after == before,
{
}

/// The answers that were given are the replies without those that are none.
pub proof fn lemma_answers_are_the_replies(replies: Seq<Option<DeviceStatus>>)
    ensures
        answers_in(replies) == replies.filter(
            |reply: Option<DeviceStatus>| reply is Some,
        ).map_values(|reply: Option<DeviceStatus>| reply->0),
    decreases replies.len(),
{
    reveal(Seq::filter);
    let given = |reply: Option<DeviceStatus>| reply is Some;
    let status = |reply: Option<DeviceStatus>| reply->0;
    if replies.len() == 0 {
        assert(replies.filter(given).map_values(status) =~= Seq::empty());
    } else {
        lemma_answers_are_the_replies(replies.drop_last());
        assert(replies.filter(given).map_values(status) =~= answers_in(replies));
    }
}

/// The first actor is asked first, and the one after it when it has replied, until
/// there is none; the one that was last to reply adds its answer to those before
/// it, if it gave one. Anything else is ignored.
pub proof fn lemma_asking_step(
    phase: StatusPhase,
    event: StatusEvent,
    entries: usize,
    next: StatusPhase,
    action: StatusAction,
)
    requires
        call_ensures(ask_actors, (phase, event, entries), (next, action)),
    ensures
        call_requires(ask_actors, (phase, event, entries)),
        action matches StatusAction::Ask { index } ==> {
            &&& index < entries
            &&& next matches StatusPhase::Asking { index: asked, .. }
            &&& asked == index
            &&& index == 0 ==> phase is Created
            &&& index > 0 ==> (phase matches StatusPhase::Asking { index: before, .. } && before + 1
                == index)
        },
        phase is Created && event is Started ==> (action is Finish <==> entries == 0) && !(
        action is Ignore),
        (phase matches StatusPhase::Asking { index, .. } && event is Answered) ==> !(
        action is Ignore) && (action is Finish <==> phase->index + 1 >= entries),
        action is Finish <==> next is Over && !(phase is Over),
        ({
            let held = match phase {
                StatusPhase::Asking { answers, .. } => answers@,
                _ => Seq::empty(),
            };
            let answered = match event {
                StatusEvent::Answered(Some(status)) => held.push(status),
                _ => held,
            };
            &&& action matches StatusAction::Finish(told) ==> told@ == answered
            &&& action is Ask ==> (next matches StatusPhase::Asking { answers: kept, .. } && kept@
                == answered)
        }),
        action is Ignore <==> !(phase is Created && event is Started || phase is Asking
            && event is Answered),
        action is Ignore ==> next == phase,
{
}

} // verus!
