use spinlock::InnerSpinner;
use spinlock::Lock;

#[test]
fn it_works() {
    let mut l = Lock::new(0u32);
    {
        let mut v = l.lock();
        *v.get_mut() += 1;
        l.unlock(v);
    }

    assert_eq!(1, *l.lock().get());
}

#[test]
fn inner() {
    let mut l = Lock::new(0u32);
    {
        let mut v = l.lock();
        *v.get_mut() += 1;
        l.unlock(v);
    }

    assert_eq!(Ok(1), l.into_inner());
}

#[test]
fn increment_then_reacquire() {
    let mut l = Lock::new(0u64);
    let mut g = l.lock();
    *g.get_mut() += 1;
    l.unlock(g);

    let g = l.lock();
    assert_eq!(1, *g.get());
    l.unlock(g);

    assert_eq!(Ok(1), l.into_inner());
}

#[test]
fn try_acquire_while_held_then_after_release() {
    let mut l = Lock::new(5u8);
    let g = l.lock();
    assert!(l.try_lock().is_none());
    assert!(l.try_lock().is_none());
    l.unlock(g);

    let g2 = l.try_lock();
    assert!(g2.is_some());
    let g2 = g2.unwrap();
    assert_eq!(5, *g2.get());
    assert!(l.try_lock().is_none());
    l.unlock(g2);
}

#[test]
fn extraction_round_trip() {
    let l = Lock::new(41i64);
    assert_eq!(Ok(41), l.into_inner());

    let l = Lock::new(String::from("guarded"));
    assert_eq!(Ok(String::from("guarded")), l.into_inner());

    let l = Lock::new(vec![1u8, 2, 3]);
    assert_eq!(Ok(vec![1u8, 2, 3]), l.into_inner());
}

#[test]
fn write_is_visible_to_next_acquirer() {
    let mut l = Lock::new(0u32);
    let mut g = l.lock();
    *g.get_mut() = 42;
    l.unlock(g);

    let g = l.lock();
    assert_eq!(42, *g.get());
    l.unlock(g);

    let g = l.try_lock().unwrap();
    assert_eq!(42, *g.get());
    l.unlock(g);
}

#[test]
fn release_reenables_acquisition() {
    let mut l = Lock::new(7u16);
    let g = l.lock();
    l.unlock(g);
    let g = l.lock();
    l.unlock(g);
    let g = l.try_lock().unwrap();
    l.unlock(g);
    assert_eq!(Ok(7), l.into_inner());
}

#[test]
fn no_lost_updates() {
    let mut l = Lock::new(0u32);
    for _ in 0..5_000 {
        let mut g = l.lock();
        *g.get_mut() += 1;
        l.unlock(g);

        let mut g = l.lock();
        *g.get_mut() += 1;
        l.unlock(g);
    }
    assert_eq!(Ok(10_000), l.into_inner());
}

#[test]
fn unwrap_returns_the_same_guard() {
    let mut l = Lock::new(9u8);
    let g = l.lock().unwrap();
    assert_eq!(9, *g.get());
    l.unlock(g);
    assert_eq!(Ok(9), l.into_inner());
}

#[test]
fn flag_compare_and_set() {
    let mut f = InnerSpinner::new();
    assert!(f.try_lock());
    assert!(!f.try_lock());
    assert!(!f.try_lock());
    f.unlock();
    assert!(f.try_lock());
    f.unlock();
    f.lock();
    assert!(!f.try_lock());
    f.unlock();
}
