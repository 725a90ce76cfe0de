use vaffelbot::{
    bake_start, bake_step, open_start, open_step, waffle_start, waffle_step, BakeAction, BakeEvent,
    BakeState, OpenAction, OpenEvent, OpenState, QueueEntry, WaffleAction, WaffleEvent, WaffleOutcome,
    WaffleState,
};

#[test]
fn waffle_order_for_a_newcomer() {
    let (state, action) = waffle_start();
    assert_eq!((state, action), (WaffleState::AwaitOpen, WaffleAction::CheckOpen));
    let (state, action) = waffle_step(state, WaffleEvent::IsOpen(true)).unwrap();
    assert_eq!(action, WaffleAction::FindPlace);
    let (state, action) = waffle_step(state, WaffleEvent::Place(None)).unwrap();
    assert_eq!(action, WaffleAction::CountQueue);
    let (state, action) = waffle_step(state, WaffleEvent::Size(3)).unwrap();
    assert_eq!(action, WaffleAction::PushEntry);
    let (state, action) = waffle_step(state, WaffleEvent::Pushed).unwrap();
    assert_eq!((state, action), (WaffleState::Done, WaffleAction::Reply(WaffleOutcome::Queued(3))));
}

#[test]
fn waffle_order_for_someone_queued_or_closed() {
    let (state, _) = waffle_start();
    let (after_open, _) = waffle_step(state, WaffleEvent::IsOpen(true)).unwrap();
    assert_eq!(
        waffle_step(after_open, WaffleEvent::Place(Some(2))),
        Some((WaffleState::Done, WaffleAction::Reply(WaffleOutcome::AlreadyQueued(2))))
    );
    assert_eq!(
        waffle_step(state, WaffleEvent::IsOpen(false)),
        Some((WaffleState::Done, WaffleAction::Reply(WaffleOutcome::Closed)))
    );
    assert_eq!(waffle_step(state, WaffleEvent::Pushed), None);
}

#[test]
fn bake_pops_records_then_announces() {
    let (state, action) = bake_start(2);
    assert!(matches!(action, BakeAction::CheckOpen));
    let (state, action) = bake_step(state, BakeEvent::IsOpen(true)).unwrap();
    assert!(matches!(action, BakeAction::Pop(2)));
    let popped = vec![
        QueueEntry::new("11".to_string(), "A".to_string()),
        QueueEntry::new("22".to_string(), "B".to_string()),
    ];
    let (state, action) = bake_step(state, BakeEvent::Popped(popped)).unwrap();
    match action {
        BakeAction::Record(ids) => assert_eq!(ids, vec!["11".to_string(), "22".to_string()]),
        _ => panic!("expected the orders to be recorded"),
    }
    let (state, action) = bake_step(state, BakeEvent::Recorded).unwrap();
    assert!(matches!(state, BakeState::Done));
    match action {
        BakeAction::Reply(message) => assert_eq!(message, "🧇 Stekte 2 vafler til: <@11> og <@22>"),
        _ => panic!("expected the announcement"),
    }
}

#[test]
fn bake_while_closed() {
    let (state, _) = bake_start(1);
    match bake_step(state, BakeEvent::IsOpen(false)) {
        Some((BakeState::Done, BakeAction::Reply(reply))) => assert_eq!(reply, "🔒️ Bestilling er stengt"),
        _ => panic!("expected the closed reply"),
    }
    assert!(bake_step(BakeState::AwaitPopped, BakeEvent::Recorded).is_none());
}

#[test]
fn open_announces_once() {
    let (state, action) = open_start();
    assert!(matches!(action, OpenAction::CheckOpen));
    let (state, action) = open_step(state, OpenEvent::IsOpen(false)).unwrap();
    assert!(matches!(action, OpenAction::OpenQueue));
    match open_step(state, OpenEvent::Opened) {
        Some((OpenState::Done, OpenAction::Announce { reply, activity })) => {
            assert_eq!(reply, "@here 🔓️ Bestilling er nå åpnet");
            assert_eq!(activity, "🧇 Lager vafler");
        }
        _ => panic!("expected the announcement"),
    }
    match open_step(OpenState::AwaitOpen, OpenEvent::IsOpen(true)) {
        Some((OpenState::Done, OpenAction::Reply(reply))) => {
            assert_eq!(reply, "🔓️ Bestilling er allerede åpnet")
        }
        _ => panic!("expected the already-open reply"),
    }
    assert!(open_step(OpenState::Done, OpenEvent::Opened).is_none());
}
