use rustuv::error::EOF;
use rustuv::raw::Loop;
use rustuv::tls::Key;
use rustuv::UvError;

#[test]
fn error_smoke_test() {
    let err: UvError = UvError(EOF);
    assert_eq!(err.to_string(), "EOF: end of file".to_string());
}

#[test]
fn smoke() {
    let mut l = Loop::new(1);
    assert_eq!(l.raw(), 1);
    assert!(l.close().is_ok());
}

#[test]
fn simple() {
    let mut foo: Key<usize> = Key::new();
    assert_eq!(foo.get(), None);

    let prev = foo.set(1);
    assert_eq!(*foo.get().unwrap(), 1);

    // a second slot, as another thread would have, is still empty
    let other: Key<usize> = Key::new();
    assert_eq!(other.get(), None);

    foo.reset(prev);
    assert_eq!(foo.get(), None);
}
