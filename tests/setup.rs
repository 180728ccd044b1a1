use sailify::error::LibrespotError;
use sailify::setup::{
    check_backend, check_mixer, initial_volume, resolve_credentials, CredentialChoice,
};

#[test]
fn known_backend_is_returned() {
    let r = check_backend(Some(5u8), &Some("pipe".to_string()));
    assert!(matches!(r, Ok(5)));
}

#[test]
fn unknown_backend_is_illegal_config() {
    let r = check_backend::<u8>(None, &Some("nope".to_string()));
    match r {
        Err(LibrespotError::IllegalConfig(m)) => assert_eq!(m, "Invalid backend Some(\"nope\")"),
        other => panic!("unexpected {:?}", other),
    }
    let r = check_backend::<u8>(None, &None);
    match r {
        Err(LibrespotError::IllegalConfig(m)) => assert_eq!(m, "Invalid backend None"),
        other => panic!("unexpected {:?}", other),
    }
}

#[test]
fn unknown_mixer_is_illegal_config() {
    let r = check_mixer::<u8>(None, &Some("x".to_string()));
    match r {
        Err(LibrespotError::IllegalConfig(m)) => assert_eq!(m, "Invalid mixer Some(\"x\")"),
        other => panic!("unexpected {:?}", other),
    }
    assert!(matches!(check_mixer(Some('m'), &None), Ok('m')));
}

#[test]
fn volume_is_scaled_or_taken_from_cache() {
    assert_eq!(initial_volume(Some(100), Some(7)), Some(65535));
    assert_eq!(initial_volume(Some(50), None), Some(32767));
    assert_eq!(initial_volume(Some(0), Some(7)), Some(0));
    assert_eq!(initial_volume(None, Some(1234)), Some(1234));
    assert_eq!(initial_volume(None, None), None);
}

#[test]
fn supplied_password_wins_over_stored_credentials() {
    let r = resolve_credentials(Some("me".to_string()), Some("pw".to_string()), Some(1u32));
    match r {
        Ok(CredentialChoice::Password { username, password }) => {
            assert_eq!(username, "me");
            assert_eq!(password, "pw");
        }
        other => panic!("unexpected {:?}", other),
    }
}

#[test]
fn stored_credentials_are_used_without_a_password() {
    let r = resolve_credentials(Some("me".to_string()), None, Some(9u32));
    assert!(matches!(r, Ok(CredentialChoice::Stored(9))));
    let r = resolve_credentials(None, Some("pw".to_string()), Some(3u32));
    assert!(matches!(r, Ok(CredentialChoice::Stored(3))));
}

#[test]
fn no_credentials_at_all_is_an_error() {
    let r = resolve_credentials::<u32>(None, None, None);
    assert!(matches!(r, Err(LibrespotError::MissingCredentials)));
    let r = resolve_credentials::<u32>(Some("me".to_string()), None, None);
    assert!(matches!(r, Err(LibrespotError::MissingCredentials)));
}
