use mitch_cli::btle_actor::{BtleAction, BtleActor, BtleCommand, BtleEvent, BtlePhase};
use mitch_cli::mitch::{COMMAND_CHAR, DATA_CHAR};

fn play(actor: BtleActor<u32>, events: Vec<BtleEvent<u32>>) -> (BtleActor<u32>, Vec<BtleAction>) {
    let mut actor = actor;
    let mut actions = Vec::new();
    for event in events {
        assert!(actor.can_take(&event));
        let (next, action) = actor.step(event);
        actor = next;
        actions.push(action);
    }
    (actor, actions)
}

fn idle() -> BtleActor<u32> {
    let (actor, actions) = play(
        BtleActor::new("mitch-1".to_string()),
        vec![BtleEvent::Started, BtleEvent::Subscribed(true)],
    );
    assert_eq!(actions, vec![BtleAction::Subscribe, BtleAction::Await]);
    actor
}

fn start() -> BtleEvent<u32> {
    BtleEvent::Command(Some(BtleCommand::StartRecording { lsl_stream_name: "mitch-1".to_string() }))
}

fn recording() -> BtleActor<u32> {
    let (actor, actions) = play(
        idle(),
        vec![
            start(),
            BtleEvent::OutletOpened { outlet: 9, characteristics: vec![3, COMMAND_CHAR, DATA_CHAR] },
            BtleEvent::Done,
            BtleEvent::Done,
            BtleEvent::Done,
        ],
    );
    assert!(matches!(&actions[0], BtleAction::OpenOutlet(stream) if stream.name == "mitch-1"));
    assert_eq!(
        &actions[1..],
        &[
            BtleAction::StartNotify { index: 2 },
            BtleAction::WriteStart { index: 1 },
            BtleAction::Read { index: 1 },
            BtleAction::Await,
        ]
    );
    actor
}

#[test]
fn btle_recording_pushes_three_words() {
    let (_, actions) = play(
        recording(),
        vec![BtleEvent::Notified(Some(vec![0, 0, 0, 0, 1, 0, 0, 1, 255, 255, 7]))],
    );
    assert_eq!(actions, vec![BtleAction::Push(vec![1, 256, -1])]);
}

#[test]
fn btle_data_waits_for_an_outlet() {
    let (actor, actions) = play(idle(), vec![BtleEvent::Notified(Some(vec![1]))]);
    assert_eq!(actions, vec![BtleAction::Await]);
    assert_eq!(actor, idle());
}

#[test]
fn btle_short_data_cannot_be_taken_while_recording() {
    assert!(!recording().can_take(&BtleEvent::Notified(Some(vec![0; 9]))));
    assert!(recording().can_take(&BtleEvent::Notified(Some(vec![0; 10]))));
    assert!(idle().can_take(&BtleEvent::Notified(Some(vec![0; 9]))));
}

#[test]
fn btle_missing_characteristics_cannot_be_taken() {
    let (actor, _) = play(idle(), vec![start()]);
    assert!(!actor.can_take(&BtleEvent::OutletOpened { outlet: 9, characteristics: vec![COMMAND_CHAR] }));
    let (actor, _) = play(
        actor,
        vec![BtleEvent::OutletOpened { outlet: 9, characteristics: vec![DATA_CHAR] }],
    );
    assert!(!actor.can_take(&BtleEvent::Done));
}

#[test]
fn btle_clean_up() {
    for stop in [
        BtleEvent::Command(Some(BtleCommand::Shutdown)),
        BtleEvent::Command(None),
        BtleEvent::Notified(None),
    ] {
        let (actor, actions) = play(recording(), vec![stop, BtleEvent::Done, BtleEvent::Done]);
        assert_eq!(
            actions,
            vec![BtleAction::Disconnect, BtleAction::RemoveEntry, BtleAction::Finish]
        );
        assert_eq!(actor.phase, BtlePhase::Finished);
    }
}

#[test]
fn btle_without_notifications_is_abandoned() {
    let (actor, actions) = play(
        BtleActor::new("m".to_string()),
        vec![BtleEvent::Started, BtleEvent::Subscribed(false), BtleEvent::Done],
    );
    assert_eq!(
        actions,
        vec![BtleAction::Subscribe, BtleAction::Abandon, BtleAction::Ignore]
    );
    assert_eq!(actor.phase, BtlePhase::Abandoned);
}

#[test]
fn btle_samples_come_out_in_order() {
    let packet = |low: u8| BtleEvent::Notified(Some(vec![0, 0, 0, 0, low, 0, 0, 0, 0, 0]));
    let (_, actions) = play(recording(), vec![packet(2), packet(1)]);
    assert_eq!(
        actions,
        vec![BtleAction::Push(vec![2, 0, 0]), BtleAction::Push(vec![1, 0, 0])]
    );
}
