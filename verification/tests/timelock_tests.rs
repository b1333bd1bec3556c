use stellarspend::timelock::{get_timelock, next_timelock_id, save_timelock, update_timelock,
    TimelockDataKey, TimelockEvent, TimelockEvents, TimelockStore, TimelockedTx};

fn sample_tx(id: u64) -> TimelockedTx {
    TimelockedTx {
        id,
        from: 1,
        to: 2,
        amount: 500,
        payload: "pay".to_string(),
        asset: None,
        execute_at: 1_060,
        created_at: 1_000,
        executed: false,
        canceled: false,
        executed_at: None,
        canceled_at: None,
    }
}

#[test]
fn test_timelock_ids_are_sequential() {
    let mut store = TimelockStore::new();
    assert_eq!(next_timelock_id(&mut store).unwrap(), 1);
    assert_eq!(next_timelock_id(&mut store).unwrap(), 2);
    assert_eq!(next_timelock_id(&mut store).unwrap(), 3);
}

#[test]
fn test_save_and_get_timelock() {
    let mut store = TimelockStore::new();
    let id = next_timelock_id(&mut store).unwrap();
    let tx = sample_tx(id);
    save_timelock(&mut store, &tx);

    let fetched = get_timelock(&store, id).expect("expected stored timelocked tx");
    assert_eq!(fetched.id, id);
    assert_eq!(fetched.from, tx.from);
    assert_eq!(fetched.to, tx.to);
    assert_eq!(fetched.amount, tx.amount);
    assert_eq!(fetched.execute_at, tx.execute_at);
    assert!(!fetched.executed);
    assert!(!fetched.canceled);
    assert_eq!(fetched.executed_at, None);
    assert_eq!(fetched.canceled_at, None);

    assert!(get_timelock(&store, id + 1).is_none());
    assert!(store.has(&TimelockDataKey::TimelockedTx(id)));
    assert!(!store.has(&TimelockDataKey::TimelockedTx(id + 1)));
}

#[test]
fn test_update_timelock_marks_execution() {
    let mut store = TimelockStore::new();
    let id = next_timelock_id(&mut store).unwrap();
    save_timelock(&mut store, &sample_tx(id));

    let mut tx = get_timelock(&store, id).unwrap();
    tx.executed = true;
    tx.executed_at = Some(1_061);
    update_timelock(&mut store, &tx);

    let fetched = get_timelock(&store, id).unwrap();
    assert!(fetched.executed);
    assert_eq!(fetched.executed_at, Some(1_061));
    assert!(!fetched.canceled);
}

#[test]
fn test_timelock_lifecycle_events() {
    let mut log: Vec<TimelockEvent> = Vec::new();
    let tx = sample_tx(1);
    TimelockEvents::scheduled(&mut log, &tx);

    let mut executed_tx = sample_tx(1);
    executed_tx.executed = true;
    executed_tx.executed_at = Some(1_070);
    TimelockEvents::executed(&mut log, &executed_tx, 9);

    let mut canceled_tx = sample_tx(2);
    canceled_tx.canceled = true;
    canceled_tx.canceled_at = Some(1_020);
    TimelockEvents::cancelled(&mut log, &canceled_tx, 1);

    assert_eq!(log.len(), 3);
    assert!(matches!(
        &log[0],
        TimelockEvent::Scheduled { id: 1, from: 1, to: 2, amount: 500, asset: None, execute_at: 1_060 }
    ));
    assert!(matches!(
        &log[1],
        TimelockEvent::Executed { id: 1, executor: 9, executed_at: Some(1_070), .. }
    ));
    assert!(matches!(
        &log[2],
        TimelockEvent::Cancelled { id: 2, canceller: 1, canceled_at: Some(1_020), .. }
    ));
}
