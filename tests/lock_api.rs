use ringpool::{next_state, settled_state, Lock, LockEvent, EMPTY, IDLE, WRITE_LOCKED};

#[test]
fn test_lock_api() {
    let lock = Lock::default();
    assert_eq!(lock.state(), 0);
    assert_eq!(lock.create(|| Some(1)), Some(1));
    assert_eq!(lock.state(), 1);
    assert_eq!(lock.create(|| Some(2)), None);
    assert_eq!(lock.state(), 1);
    assert_eq!(lock.update(|| Some(3)), Some(3));
    assert_eq!(lock.state(), 1);
    assert_eq!(lock.update(|| Option::<()>::None), None);
    assert_eq!(lock.state(), 0);

    assert_eq!(
        lock.create(|| {
            assert_eq!(lock.state(), -1);
            Some(4)
        }),
        Some(4)
    );
    assert_eq!(
        lock.read(|| {
            assert_eq!(lock.state(), 2);
            5
        }),
        Some(5)
    );
    assert_eq!(lock.state(), 1);
    assert_eq!(
        lock.update(|| {
            assert_eq!(lock.state(), -1);
            Option::<()>::None
        }),
        None
    );
}

#[test]
fn empty_lock_is_claimed_by_create_not_update() {
    let lock = Lock::new();
    assert_eq!(lock.update(|| Some(1)), None);
    assert_eq!(lock.state(), EMPTY);
    assert_eq!(lock.create(|| Some(2)), Some(2));
    assert_eq!(lock.update(|| Option::<i32>::None), None);
    assert_eq!(lock.state(), EMPTY);
    assert_eq!(lock.update(|| Some(3)), None);
    assert_eq!(lock.create(|| Some(4)), Some(4));
}

#[test]
fn read_on_empty_lock_fails() {
    let lock = Lock::new();
    assert_eq!(lock.read(|| 1), None);
    assert_eq!(lock.state(), EMPTY);
}

#[test]
fn create_that_declines_leaves_lock_empty() {
    let lock = Lock::new();
    assert_eq!(lock.create(|| Option::<i32>::None), None);
    assert_eq!(lock.state(), EMPTY);
}

#[test]
fn nested_reads_count_each_reader_and_drain() {
    let lock = Lock::new();
    assert_eq!(lock.create(|| Some(())), Some(()));
    let r = lock.read(|| {
        assert_eq!(lock.state(), 2);
        let inner = lock.read(|| lock.state());
        assert_eq!(lock.state(), 2);
        inner
    });
    assert_eq!(r, Some(Some(3)));
    assert_eq!(lock.state(), IDLE);
}

#[test]
fn write_lock_refuses_every_other_claim() {
    let lock = Lock::new();
    let r = lock.create(|| {
        assert_eq!(lock.state(), WRITE_LOCKED);
        assert_eq!(lock.read(|| 1), None);
        assert_eq!(lock.update(|| Some(1)), None);
        assert_eq!(lock.create(|| Some(1)), None);
        Some(7)
    });
    assert_eq!(r, Some(7));
    assert_eq!(lock.state(), IDLE);
}

#[test]
fn update_refused_while_read() {
    let lock = Lock::new();
    assert_eq!(lock.create(|| Some(())), Some(()));
    let r = lock.read(|| lock.update(|| Some(1)));
    assert_eq!(r, Some(None));
    assert_eq!(lock.state(), IDLE);
}

#[test]
fn next_state_read_steps() {
    assert_eq!(next_state(-1, LockEvent::ReadEnter), None);
    assert_eq!(next_state(0, LockEvent::ReadEnter), None);
    assert_eq!(next_state(1, LockEvent::ReadEnter), Some(2));
    assert_eq!(next_state(5, LockEvent::ReadEnter), Some(6));
    assert_eq!(next_state(i32::MAX, LockEvent::ReadEnter), None);
    assert_eq!(next_state(3, LockEvent::ReadExit), Some(2));
    assert_eq!(next_state(1, LockEvent::ReadExit), None);
}

#[test]
fn next_state_write_steps() {
    assert_eq!(next_state(EMPTY, LockEvent::CreateClaim), Some(WRITE_LOCKED));
    assert_eq!(next_state(IDLE, LockEvent::CreateClaim), None);
    assert_eq!(next_state(WRITE_LOCKED, LockEvent::CreateClaim), None);
    assert_eq!(next_state(IDLE, LockEvent::UpdateClaim), Some(WRITE_LOCKED));
    assert_eq!(next_state(EMPTY, LockEvent::UpdateClaim), None);
    assert_eq!(next_state(2, LockEvent::UpdateClaim), None);
    assert_eq!(next_state(WRITE_LOCKED, LockEvent::Release(true)), Some(IDLE));
    assert_eq!(next_state(WRITE_LOCKED, LockEvent::Release(false)), Some(EMPTY));
    assert_eq!(next_state(IDLE, LockEvent::Release(true)), None);
}

#[test]
fn settled_state_values() {
    assert_eq!(settled_state(true), 1);
    assert_eq!(settled_state(false), 0);
}
