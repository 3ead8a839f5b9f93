use rtsan_standalone::sync::Mutex;
use std::sync::TryLockError;

#[test]
fn a_new_mutex_gives_its_value_back() {
    let m = Mutex::new(5u32);
    assert!(!m.is_poisoned());
    assert_eq!(m.into_innter().unwrap(), 5);
}

#[test]
fn the_standard_mutex_inside_gives_access_to_the_value() {
    let m = Mutex::new(vec![1u8, 2]);
    {
        let mut guard = m.inner().lock().unwrap();
        guard.push(3);
    }
    assert_eq!(*m.inner().lock().unwrap(), vec![1, 2, 3]);
}

#[test]
fn try_lock_fails_at_once_while_the_lock_is_held() {
    let m = Mutex::new(0u8);
    let guard = m.inner().lock().unwrap();
    assert!(matches!(m.try_lock(), Err(TryLockError::WouldBlock)));
    drop(guard);
    assert_eq!(*m.try_lock().unwrap(), 0);
}

#[test]
fn get_mut_reaches_the_value_without_locking() {
    let mut m = Mutex::new(String::from("a"));
    m.get_mut().unwrap().push('b');
    assert_eq!(m.into_innter().unwrap(), "ab");
}

#[test]
fn clear_poison_leaves_a_sound_mutex_sound() {
    let m = Mutex::new(1u8);
    assert!(!m.is_poisoned());
    m.clear_poison();
    assert!(!m.is_poisoned());
    assert_eq!(*m.inner().lock().unwrap(), 1);
}
