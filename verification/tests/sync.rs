use merlion_std::sync::{Condvar, Mutex, Once, RwLock};
use merlion_std::syscall::{SYS_CONDVAR_CREATE, SYS_CONDVAR_SIGNAL, SYS_MUTEX_CREATE, SYS_MUTEX_DESTROY, SYS_MUTEX_LOCK, SYS_MUTEX_UNLOCK};

#[test]
fn kernel_mutex() {
    assert_eq!(Mutex::<u8>::new_syscall().num, SYS_MUTEX_CREATE);
    let mut m = Mutex::new(5u32, 11);
    assert_eq!(m.id, 11);
    assert_eq!(m.lock_syscall().num, SYS_MUTEX_LOCK);
    assert_eq!(m.lock_syscall().args, vec![11]);
    assert_eq!(m.unlock_syscall().num, SYS_MUTEX_UNLOCK);
    assert_eq!(m.destroy_syscall().num, SYS_MUTEX_DESTROY);
    *m.lock().unwrap() += 1;
    assert_eq!(m.data, 6);
}

#[test]
fn rwlock_over_mutex() {
    let mut l = RwLock::new(vec![1, 2], 3);
    l.write().unwrap().push(3);
    assert_eq!(*l.read().unwrap(), vec![1, 2, 3]);
    assert_eq!(l.inner.id, 3);
}

#[test]
fn condvar_requests() {
    assert_eq!(Condvar::new_syscall().num, SYS_CONDVAR_CREATE);
    let c = Condvar::new(0x1_0000_0004);
    assert_eq!(c.id, 4);
    assert_eq!(c.notify_one().num, SYS_CONDVAR_SIGNAL);
    assert_eq!(c.notify_one().args, vec![4]);
    assert_eq!(c.notify_all().num, SYS_CONDVAR_SIGNAL);
}

#[test]
fn once_runs_once() {
    let mut once = Once::new();
    let mut count = 0;
    once.call_once(|| count += 1);
    once.call_once(|| count += 1);
    assert_eq!(count, 1);
    assert!(once.done);
}
