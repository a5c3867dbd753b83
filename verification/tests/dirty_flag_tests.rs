use sceneview::dirty_flag::DirtyFlag;

#[test]
fn test_dirty_flag() {
    let mut num = DirtyFlag::new(3);

    assert!(!num.is_dirty());
    assert_eq!(*num.read().unwrap(), 3);
    assert!(!num.is_dirty());

    *num.write() = 2;
    assert_eq!(*num.unchecked_read(), 2);
    assert!(num.is_dirty());
    num.clean_flag();
    assert!(!num.is_dirty());
    num.set_dirty();
    assert!(num.is_dirty());
}

// A checked read of a value with pending writes is refused; this is the
// "stale read attempted" contract violation, surfaced as an error value.
#[test]
fn read_while_dirty_fails() {
    let mut ok = DirtyFlag::new(true);
    *ok.write() = false;
    assert!(ok.read().is_err());
    assert!(*ok.unchecked_read() == false);
    ok.clean_flag();
    assert_eq!(*ok.read().unwrap(), false);
}

// A freshly constructed dirty-tracked value is never dirty; any write makes
// it dirty; clearing after a write makes it clean again.
#[test]
fn dirty_discipline() {
    let mut v = DirtyFlag::new(String::from("hello"));
    assert!(!v.is_dirty());
    assert!(v.read().is_ok());
    v.write().push('!');
    assert!(v.is_dirty());
    assert!(v.read().is_err());
    v.clean_flag();
    assert!(!v.is_dirty());
    assert_eq!(v.read().unwrap().as_str(), "hello!");

    let (data, dirty) = v.get_all();
    assert!(!*dirty);
    data.push('?');
    *dirty = true;
    assert!(v.is_dirty());
    assert_eq!(v.unchecked_read().as_str(), "hello!?");
}
