use wapi::handle::HandleGuard;

#[test]
fn close_hands_out_the_handle_once() {
    let mut guard = HandleGuard::new(0x1234);
    assert!(!guard.is_invalid());
    assert_eq!(guard.raw(), 0x1234);
    assert_eq!(guard.close(), Some(0x1234));
    assert!(guard.is_invalid());
    assert_eq!(guard.raw(), 0);
}

#[test]
fn close_twice_finds_nothing_to_close() {
    let mut guard = HandleGuard::new(77);
    let first = guard.close();
    let after_first = guard.raw();
    let second = guard.close();
    assert_eq!(first, Some(77));
    assert_eq!(second, None);
    assert_eq!(guard.raw(), after_first);
}

#[test]
fn sentinels_are_invalid_and_never_closed() {
    let mut null = HandleGuard::new(0);
    let mut minus_one = HandleGuard::new(-1);
    assert!(null.is_invalid());
    assert!(minus_one.is_invalid());
    assert_eq!(null.close(), None);
    assert_eq!(minus_one.close(), None);
    assert_eq!(minus_one.raw(), 0);
}

#[test]
fn other_values_are_valid() {
    assert!(!HandleGuard::new(1).is_invalid());
    assert!(!HandleGuard::new(-2).is_invalid());
    assert!(!HandleGuard::new(isize::MAX).is_invalid());
    assert!(!HandleGuard::new(isize::MIN).is_invalid());
}
