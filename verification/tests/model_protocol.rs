use interrupt_mutex::model::Event;
use interrupt_mutex::model::MaskState;
use interrupt_mutex::model::ModelInterruptMutex;

#[test]
fn mask_restored_after_single_cycle() {
    let mut cpu = MaskState { enabled: true };
    let mut log: Vec<Event> = Vec::new();
    let mut lock = ModelInterruptMutex::new();

    lock.lock(&mut cpu, &mut log);
    // Masked for the duration of the critical section.
    assert!(!cpu.enabled);
    assert!(lock.is_locked());

    lock.unlock(&mut cpu, &mut log);
    // Restored to enabled immediately after unlock.
    assert!(cpu.enabled);
    assert!(!lock.is_locked());
}

#[test]
fn try_lock_failure_leaves_no_residue() {
    let mut cpu = MaskState { enabled: true };
    let mut log: Vec<Event> = Vec::new();
    let mut lock = ModelInterruptMutex::new();

    lock.lock(&mut cpu, &mut log);
    let cpu_before = cpu;
    let lock_before = lock;

    // The inner lock is already held, so the acquire fails ...
    assert!(!lock.try_lock(&mut cpu, &mut log));
    // ... and neither the mask state nor the lock has changed.
    assert_eq!(cpu, cpu_before);
    assert_eq!(lock, lock_before);
    // The failure path masked and at once restored.
    assert_eq!(
        &log[log.len() - 2..],
        &[Event::MaskDisabled, Event::MaskRestored]
    );

    lock.unlock(&mut cpu, &mut log);
    assert!(cpu.enabled);
}

#[test]
fn unlock_releases_inner_before_restoring_mask() {
    let mut cpu = MaskState { enabled: true };
    let mut log: Vec<Event> = Vec::new();
    let mut lock = ModelInterruptMutex::new();

    for _ in 0..3 {
        lock.lock(&mut cpu, &mut log);
        let before = log.len();
        lock.unlock(&mut cpu, &mut log);
        // Each unlock appends the inner release strictly before the restore.
        assert_eq!(
            &log[before..],
            &[Event::InnerReleased, Event::MaskRestored]
        );
    }
}

#[test]
fn nested_distinct_instances_lifo() {
    let mut cpu = MaskState { enabled: true };
    let mut log: Vec<Event> = Vec::new();
    let mut a = ModelInterruptMutex::new();
    let mut b = ModelInterruptMutex::new();

    a.lock(&mut cpu, &mut log);
    assert!(!cpu.enabled);
    // The second mask is absorbed: the context is already masked.
    b.lock(&mut cpu, &mut log);
    assert!(!cpu.enabled);

    // LIFO release: after B the context stays masked, after A it is enabled.
    b.unlock(&mut cpu, &mut log);
    assert!(!cpu.enabled);
    a.unlock(&mut cpu, &mut log);
    assert!(cpu.enabled);
}

#[test]
fn nested_non_lifo_release_caveat() {
    // The documented caveat, not a guarantee: releasing out of acquisition
    // order restores an intermediate state prematurely.
    let mut cpu = MaskState { enabled: true };
    let mut log: Vec<Event> = Vec::new();
    let mut a = ModelInterruptMutex::new();
    let mut b = ModelInterruptMutex::new();

    a.lock(&mut cpu, &mut log);
    b.lock(&mut cpu, &mut log);

    // A is released first although B is still held: interrupts come back on
    // early.
    a.unlock(&mut cpu, &mut log);
    assert!(cpu.enabled);
    assert!(b.is_locked());
    b.unlock(&mut cpu, &mut log);
}

#[test]
fn is_locked_predicts_try_lock() {
    let mut cpu = MaskState { enabled: true };
    let mut log: Vec<Event> = Vec::new();
    let mut lock = ModelInterruptMutex::new();

    assert!(!lock.is_locked());
    assert!(lock.try_lock(&mut cpu, &mut log));

    assert!(lock.is_locked());
    assert!(!lock.try_lock(&mut cpu, &mut log));

    lock.unlock(&mut cpu, &mut log);
    assert!(!lock.is_locked());
    assert!(lock.try_lock(&mut cpu, &mut log));
    lock.unlock(&mut cpu, &mut log);
}

#[test]
fn scenario_interrupt_handler_push_deferred() {
    let mut cpu = MaskState { enabled: true };
    let mut log: Vec<Event> = Vec::new();
    let mut lock = ModelInterruptMutex::new();
    // The lock guards a growable sequence, initially empty.
    let mut seq: Vec<i32> = Vec::new();
    let mut pending_push: Option<i32> = None;

    // T1 acquires the lock.
    lock.lock(&mut cpu, &mut log);
    // An interrupt is raised on T1's context. Delivery is masked, so the
    // handler's push of 1 is deferred instead of running now.
    assert!(!cpu.enabled);
    pending_push = pending_push.or(Some(1));
    // Observed through T1's held lock, the sequence is still empty.
    assert_eq!(seq.len(), 0);

    // T1 releases: the mask is restored and the deferred handler runs.
    lock.unlock(&mut cpu, &mut log);
    assert!(cpu.enabled);
    if let Some(v) = pending_push.take() {
        lock.lock(&mut cpu, &mut log);
        seq.push(v);
        lock.unlock(&mut cpu, &mut log);
    }

    lock.lock(&mut cpu, &mut log);
    assert_eq!(seq, vec![1]);
    lock.unlock(&mut cpu, &mut log);
}
