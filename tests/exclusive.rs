use lazy_exclusive::{LazyExclusive, NativeOp, State};

#[test]
fn basic() {
    let mut shared = LazyExclusive::new(230);
    let mut1 = shared.get();
    assert!(mut1.is_some());
    let mut mut1 = mut1.unwrap();
    assert!(mut1.source_mut().get().is_none());

    let inner = *mut1;
    assert_eq!(inner, 230);
}

#[test]
fn static_test() {
    let mut shared: LazyExclusive<i32> = LazyExclusive::new(1231);
    let pointer = shared.get().unwrap();
    assert_eq!(*pointer, 1231);
}

#[test]
fn reset() {
    let mut lazy = LazyExclusive::new(120);
    lazy.swap(10);
    let guard = lazy.get().unwrap();
    assert_eq!(*guard, 10);
    guard.release();
    assert_eq!(lazy.get_state(), State::Unlocked);
}

#[test]
fn clone() {
    let lazy = LazyExclusive::new(120);
    let clone = lazy.clone();

    assert_eq!(lazy.into_inner(), clone.into_inner());
}

#[test]
fn new_container_is_unlocked() {
    let lazy = LazyExclusive::new(7u8);
    assert!(lazy.is_unlocked());
    assert!(!lazy.is_locked());
    assert!(!lazy.is_poisoned());
    assert_eq!(lazy.waiters(), 0);
    assert_eq!(lazy.get_state(), State::Unlocked);
    assert_eq!(lazy.peek(), Some(&7u8));
}

#[test]
fn many_gets_while_guard_out_all_fail() {
    let mut lazy = LazyExclusive::new(1u32);
    let mut guard = lazy.get().unwrap();
    for _ in 0..5 {
        assert!(guard.source_mut().get().is_none());
    }
    assert!(guard.source_mut().is_locked());
    assert_eq!(guard.source_mut().peek(), None);
}

#[test]
fn leaked_guard_leaves_container_locked() {
    let mut lazy = LazyExclusive::new(1u32);
    drop(lazy.get().unwrap());
    assert!(lazy.is_locked());
    assert!(lazy.get().is_none());
}

#[test]
fn release_then_reacquire_yields_written_value() {
    let mut lazy = LazyExclusive::new(5i64);
    let mut guard = lazy.get().unwrap();
    *guard += 37;
    guard.release();
    assert!(lazy.is_unlocked());
    let again = lazy.get().unwrap();
    assert_eq!(*again, 42);
}

#[test]
fn as_mut_writes_land_in_container() {
    let mut lazy = LazyExclusive::new(String::from("a"));
    let mut guard = lazy.get().unwrap();
    guard.as_mut().push('b');
    assert_eq!(guard.as_ref(), "ab");
    guard.release();
    assert_eq!(lazy.into_inner(), "ab");
}

#[test]
fn fault_release_poisons() {
    let mut lazy = LazyExclusive::new(3u16);
    let guard = lazy.get().unwrap();
    guard.release_after_fault();
    assert!(lazy.is_poisoned());
    assert_eq!(lazy.get_state(), State::Poisoned);
    assert!(lazy.get().is_none());
    assert_eq!(lazy.peek(), None);
}

#[test]
fn replace_clears_poison() {
    let mut lazy = LazyExclusive::new(3u16);
    let guard = lazy.get().unwrap();
    guard.release_after_fault();
    lazy.swap(9);
    assert!(lazy.is_unlocked());
    let guard = lazy.get().unwrap();
    assert_eq!(*guard, 9);
}

#[test]
fn round_trip_new_into_inner() {
    let lazy = LazyExclusive::new(vec![1u8, 2, 3]);
    assert_eq!(lazy.into_inner(), vec![1u8, 2, 3]);
}

#[test]
fn blocking_hand_off_sees_doubled_value() {
    let mut shared = LazyExclusive::new(120);
    let mut lock = shared.get().unwrap();
    *lock *= 2;
    assert_eq!(lock.source_mut().get_state(), State::Locked);
    lock.release();
    let new_lock = shared.wait();
    assert_eq!(*new_lock, 120 * 2);
    new_lock.release();
    assert!(shared.is_unlocked());
}

#[test]
fn split_wait_matches_wait() {
    let mut shared = LazyExclusive::new(8u8);
    shared.begin_wait();
    assert_eq!(shared.waiters(), 1);
    assert_eq!(shared.take_native_ops(), vec![NativeOp::Init, NativeOp::Acquire]);
    let mut guard = shared.finish_wait();
    assert_eq!(*guard, 8);
    assert!(guard.source_mut().is_locked());
    assert_eq!(guard.source_mut().waiters(), 0);
    assert!(guard.source_mut().take_native_ops().is_empty());
}

#[test]
fn clone_is_independent() {
    let lazy = LazyExclusive::new(120);
    let mut copy = lazy.clone();
    let mut guard = copy.get().unwrap();
    *guard = 999;
    guard.release();
    assert!(lazy.is_unlocked());
    assert_eq!(lazy.into_inner(), 120);
    assert_eq!(copy.into_inner(), 999);
}

#[test]
fn default_holds_default_value() {
    let lazy: LazyExclusive<u32> = LazyExclusive::default();
    assert!(lazy.is_unlocked());
    assert_eq!(lazy.into_inner(), 0);
}

#[test]
fn from_builds_unlocked_container() {
    let lazy: LazyExclusive<u32> = LazyExclusive::from(17);
    assert!(lazy.is_unlocked());
    assert_eq!(lazy.into_inner(), 17);
}

#[test]
fn native_ops_follow_lock_lifecycle() {
    let mut lazy = LazyExclusive::new(1u8);
    assert!(lazy.take_native_ops().is_empty());
    let guard = lazy.get().unwrap();
    guard.release();
    assert_eq!(
        lazy.take_native_ops(),
        vec![NativeOp::Init, NativeOp::Acquire, NativeOp::Release]
    );
    let guard = lazy.get().unwrap();
    guard.release_after_fault();
    assert_eq!(
        lazy.take_native_ops(),
        vec![NativeOp::Acquire, NativeOp::Release]
    );
    lazy.swap(2);
    assert_eq!(lazy.take_native_ops(), vec![NativeOp::Destroy]);
    lazy.swap(3);
    assert!(lazy.take_native_ops().is_empty());
}

#[test]
fn failed_get_queues_nothing() {
    let mut lazy = LazyExclusive::new(1u8);
    let mut guard = lazy.get().unwrap();
    guard.source_mut().take_native_ops();
    assert!(guard.source_mut().get().is_none());
    assert!(guard.source_mut().take_native_ops().is_empty());
}

#[test]
fn dismantle_returns_value_and_owed_calls() {
    let mut lazy = LazyExclusive::new(4u8);
    let guard = lazy.get().unwrap();
    guard.release();
    let (value, ops) = lazy.dismantle();
    assert_eq!(value, 4);
    assert_eq!(
        ops,
        vec![NativeOp::Init, NativeOp::Acquire, NativeOp::Release, NativeOp::Destroy]
    );
    let (value, ops) = LazyExclusive::new(5u8).dismantle();
    assert_eq!(value, 5);
    assert!(ops.is_empty());
}

#[test]
fn get_yields_to_a_begun_wait() {
    let mut shared = LazyExclusive::new(6u8);
    shared.begin_wait();
    assert!(shared.get().is_none());
    assert!(shared.is_unlocked());
    let guard = shared.finish_wait();
    assert_eq!(*guard, 6);
}

#[test]
fn several_waiters_claim_in_turn() {
    let mut shared = LazyExclusive::new(1u32);
    let mut first = shared.get().unwrap();
    first.source_mut().begin_wait();
    first.source_mut().begin_wait();
    assert_eq!(first.source_mut().waiters(), 2);
    *first = 2;
    first.release();
    let mut second = shared.finish_wait();
    assert_eq!(*second, 2);
    *second = 3;
    second.release();
    assert_eq!(shared.waiters(), 1);
    let third = shared.finish_wait();
    assert_eq!(*third, 3);
    third.release();
    assert_eq!(shared.waiters(), 0);
    assert!(shared.get().is_some());
}
