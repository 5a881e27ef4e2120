use chained_error::scenario::{b, c, d};
use chained_error::{Cause, OurError, OurErrorKind, Suberror};

fn io_error(msg: &str) -> std::io::Error {
    std::io::Error::new(std::io::ErrorKind::Other, msg)
}

fn invalid(description: &str) -> OurErrorKind {
    OurErrorKind::InvalidArgument { description: description.to_string() }
}

fn specifics_of(cause: Option<&Cause<std::io::Error>>) -> &OurErrorKind {
    cause.expect("a relation").downcast_ours().expect("an error of this library").specifics()
}

#[test]
fn new_error_has_no_relation() {
    let e: OurError<std::io::Error> = OurError::new(OurErrorKind::ContextInitError);
    assert!(e.previous().is_none());
    assert!(e.constituent().is_none());
    assert!(e.source().is_none());
    assert!(e.cause().is_none());
    assert_eq!(e.specifics(), &OurErrorKind::ContextInitError);
}

#[test]
fn extension_exposes_constituent() {
    let a: OurError<std::io::Error> = OurError::new(invalid("7"));
    let head = a.set_extension(OurError::new(OurErrorKind::IoctlResultTooLarge));
    assert_eq!(specifics_of(head.constituent()), &invalid("7"));
    assert!(head.previous().is_none());
    assert_eq!(head.specifics(), &OurErrorKind::IoctlResultTooLarge);
    assert_eq!(specifics_of(head.source()), &invalid("7"));
}

#[test]
fn subsequent_exposes_previous() {
    let a: OurError<std::io::Error> = OurError::new(OurErrorKind::ContextInitError);
    let head = a.set_subsequent(OurError::new(invalid("x")));
    assert_eq!(specifics_of(head.previous()), &OurErrorKind::ContextInitError);
    assert!(head.constituent().is_none());
    assert_eq!(head.specifics(), &invalid("x"));
    assert_eq!(specifics_of(head.cause()), &OurErrorKind::ContextInitError);
}

#[test]
fn setter_replaces_earlier_relation() {
    let mut e: OurError<std::io::Error> = OurError::new(OurErrorKind::IoctlResultTooLarge);
    e.set_constituent(Cause::Foreign(io_error("first")));
    e.set_previous(Cause::Ours(Box::new(OurError::new(OurErrorKind::ContextInitError))));
    assert!(e.constituent().is_none());
    assert_eq!(specifics_of(e.previous()), &OurErrorKind::ContextInitError);
    e.set_constituent(Cause::Foreign(io_error("second")));
    assert!(e.previous().is_none());
    let f = e.constituent().unwrap().downcast_foreign().expect("an I/O error");
    assert_eq!(f.to_string(), "second");
}

#[test]
fn builder_replaces_earlier_relation() {
    let mut next: OurError<std::io::Error> = OurError::new(OurErrorKind::IoctlResultTooLarge);
    next.set_constituent(Cause::Foreign(io_error("dropped")));
    let head = OurError::new(OurErrorKind::ContextInitError).set_subsequent(next);
    assert!(head.constituent().is_none());
    assert_eq!(specifics_of(head.previous()), &OurErrorKind::ContextInitError);
    let head = OurError::new(invalid("y")).set_extension(head);
    assert!(head.previous().is_none());
    assert_eq!(specifics_of(head.constituent()), &invalid("y"));
}

#[test]
fn downcast_to_other_type_fails() {
    let ours: Cause<std::io::Error> = Cause::Ours(Box::new(OurError::new(invalid("z"))));
    assert!(ours.downcast_foreign().is_none());
    assert_eq!(ours.downcast_ours().unwrap().specifics(), &invalid("z"));
    let foreign: Cause<std::io::Error> = Cause::Foreign(io_error("disk"));
    assert!(foreign.downcast_ours().is_none());
    assert_eq!(foreign.downcast_foreign().unwrap().to_string(), "disk");
    assert!(matches!(Suberror::Previous(foreign), Suberror::Previous(Cause::Foreign(_))));
}

#[test]
fn message_ignores_relation() {
    let mut e: OurError<std::io::Error> = OurError::new(invalid("32"));
    assert_eq!(e.message(), "invalid argument: 32");
    e.set_constituent(Cause::Foreign(io_error("below")));
    assert_eq!(e.message(), "invalid argument: 32");
    let head = OurError::new(OurErrorKind::ContextInitError).set_subsequent(e);
    assert_eq!(head.message(), "invalid argument: 32");
    assert_eq!(head.message(), head.specifics().message());
}

#[test]
fn messages_of_each_kind() {
    assert_eq!(OurErrorKind::ContextInitError.message(), "DM context not initialized");
    assert_eq!(invalid("").message(), "invalid argument: ");
    assert_eq!(
        OurErrorKind::IoctlError { device_info: "dm-0".to_string() }.message(),
        "ioctl error, device info: dm-0"
    );
    assert_eq!(
        OurErrorKind::IoctlResultTooLarge.message(),
        "ioctl result too large for maximum buffer size 4294967295 bytes"
    );
    assert_eq!(
        OurErrorKind::MetadataIoError { path: "/dev/sda".to_string() }.message(),
        "failed to stat metadata for device at /dev/sda"
    );
}

#[test]
fn backtrace_is_always_present() {
    let e: OurError<std::io::Error> = OurError::new(OurErrorKind::ContextInitError);
    assert!(e.our_backtrace().is_some());
}

#[test]
fn end_to_end_chain() {
    let mut e1: OurError<std::io::Error> = OurError::new(OurErrorKind::ContextInitError);
    e1.set_constituent(Cause::Foreign(io_error("oh no!")));
    let e2 = OurError::new(invalid("32"));
    let e3 = OurError::new(OurErrorKind::IoctlResultTooLarge);
    let head = e1.set_extension(e2).set_subsequent(e3);

    let mid = head.previous().unwrap().downcast_ours().expect("previous is ours");
    assert_eq!(mid.specifics(), &invalid("32"));
    let first = mid.constituent().unwrap().downcast_ours().expect("constituent is ours");
    assert_eq!(first.specifics(), &OurErrorKind::ContextInitError);
    assert!(head.constituent().is_none());
    let root = first.source().expect("a source");
    assert_eq!(root.downcast_foreign().expect("an I/O error").to_string(), "oh no!");
    assert!(root.downcast_ours().is_none());
}

#[test]
fn scenario_functions_build_the_chain() {
    let e = b().expect_err("b fails");
    assert_eq!(e.specifics(), &OurErrorKind::ContextInitError);
    assert!(e.constituent().unwrap().downcast_foreign().is_some());
    let e = c().expect_err("c fails");
    assert_eq!(e.specifics(), &OurErrorKind::ContextInitError);

    let err = d().expect_err("d fails");
    assert_eq!(err.specifics(), &OurErrorKind::IoctlResultTooLarge);
    assert_eq!(specifics_of(err.source()), &invalid("32"));
    assert!(err.source().unwrap().downcast_foreign().is_none());
    assert_eq!(specifics_of(err.previous()), specifics_of(err.source()));
    assert!(err.constituent().is_none());
    let mid = err.previous().unwrap().downcast_ours().unwrap();
    assert_eq!(specifics_of(mid.constituent()), &OurErrorKind::ContextInitError);
    assert_eq!(err.message(), "ioctl result too large for maximum buffer size 4294967295 bytes");
}
