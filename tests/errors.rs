use sailify::error::{LibrespotError, SailifyErrorKind};
use sailify::status::{ConnectionStatus, MediaStatus, PlayerState};
use sailify::utils::UnsafeSend;

#[test]
fn kinds_of_errors() {
    assert_eq!(LibrespotError::MissingCredentials.kind(), "missing-credentials");
    assert_eq!(LibrespotError::IllegalConfig("x".to_string()).kind(), "illegal-config");
    assert_eq!(LibrespotError::Io("x".to_string()).kind(), "io");
    assert_eq!(LibrespotError::Connection("x".to_string()).kind(), "connection");
    assert_eq!(LibrespotError::Panic("x".to_string()).kind(), "panic");
}

#[test]
fn messages_of_errors() {
    assert_eq!(LibrespotError::MissingCredentials.message(), "Credentials are missing");
    assert_eq!(
        LibrespotError::IllegalConfig("mixer".to_string()).message(),
        "Illegal configuration: mixer"
    );
    assert_eq!(LibrespotError::Io("disk".to_string()).message(), "I/O error: disk");
    assert_eq!(LibrespotError::Connection("lost".to_string()).message(), "Connection error: lost");
    assert_eq!(LibrespotError::Panic("oops".to_string()).message(), "Internal error: oops");
}

#[test]
fn categories_of_errors() {
    assert_eq!(
        SailifyErrorKind::of(&LibrespotError::MissingCredentials),
        SailifyErrorKind::MissingCredentials
    );
    assert_eq!(
        SailifyErrorKind::of(&LibrespotError::IllegalConfig(String::new())),
        SailifyErrorKind::IllegalConfig
    );
    assert_eq!(SailifyErrorKind::of(&LibrespotError::Io(String::new())), SailifyErrorKind::Io);
    assert_eq!(
        SailifyErrorKind::of(&LibrespotError::Connection(String::new())),
        SailifyErrorKind::Connection
    );
    assert_eq!(SailifyErrorKind::of(&LibrespotError::Panic(String::new())), SailifyErrorKind::Panic);
}

#[test]
fn status_codes() {
    assert_eq!(PlayerState::Stopped.code(), 0);
    assert_eq!(PlayerState::Playing.code(), 1);
    assert_eq!(PlayerState::Paused.code(), 2);
    assert_eq!(MediaStatus::NoMedia.code(), 0);
    assert_eq!(MediaStatus::Buffered.code(), 5);
    assert_eq!(MediaStatus::UnknownStatus.code(), 8);
    assert_eq!(ConnectionStatus::Disconnected.code(), 0);
    assert_eq!(ConnectionStatus::Connected.code(), 2);
    assert_eq!(ConnectionStatus::Crashed.code(), 100);
}

#[test]
fn wrapped_value_comes_back() {
    let w = UnsafeSend::new(vec![1, 2, 3]);
    assert_eq!(w.unwrap(), vec![1, 2, 3]);
}
