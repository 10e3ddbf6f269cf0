use chat_server::{
    identity_connected, identity_disconnected, set_name, Backend, Diagnostic, Error, Identity,
    Level, ReducerContext, Timestamp, User,
};

fn id(byte: u8) -> Identity {
    Identity::from_byte_array([byte; 32])
}

fn ctx(byte: u8) -> ReducerContext {
    ReducerContext { sender: id(byte), timestamp: Timestamp { micros_since_epoch: 42 } }
}

fn row(byte: u8, name: Option<&str>, online: bool) -> User {
    User { identity: id(byte), name: name.map(|n| n.to_string()), online }
}

#[test]
fn set_name_with_empty_name_changes_nothing() {
    let mut backend = Backend::new();
    identity_connected(&mut backend, ctx(1));
    assert_eq!(
        set_name(&mut backend, ctx(1), String::new()),
        Err(Error::InvalidArgument("empty name".to_string()))
    );
    assert_eq!(backend.get_user(&id(1)), Some(row(1, None, true)));
    assert_eq!(backend.user_count(), 1);
    assert_eq!(backend.message_count(), 0);
    assert_eq!(backend.diagnostic_count(), 0);
}

#[test]
fn set_name_with_empty_name_keeps_an_earlier_name() {
    let mut backend = Backend::new();
    identity_connected(&mut backend, ctx(1));
    assert_eq!(set_name(&mut backend, ctx(1), "Alice".to_string()), Ok(()));
    assert_eq!(
        set_name(&mut backend, ctx(1), String::new()),
        Err(Error::InvalidArgument("empty name".to_string()))
    );
    assert_eq!(backend.get_user(&id(1)), Some(row(1, Some("Alice"), true)));
}

#[test]
fn set_name_sets_exactly_the_given_name() {
    let mut backend = Backend::new();
    identity_connected(&mut backend, ctx(1));
    assert_eq!(set_name(&mut backend, ctx(1), "  Alice  ".to_string()), Ok(()));
    assert_eq!(backend.get_user(&id(1)), Some(row(1, Some("  Alice  "), true)));
}

#[test]
fn set_name_keeps_presence_and_identity() {
    let mut backend = Backend::new();
    identity_connected(&mut backend, ctx(1));
    identity_disconnected(&mut backend, ctx(1));
    assert_eq!(set_name(&mut backend, ctx(1), "Alice".to_string()), Ok(()));
    assert_eq!(backend.get_user(&id(1)), Some(row(1, Some("Alice"), false)));
    assert_eq!(backend.user_count(), 1);
}

#[test]
fn set_name_replaces_an_earlier_name() {
    let mut backend = Backend::new();
    identity_connected(&mut backend, ctx(1));
    assert_eq!(set_name(&mut backend, ctx(1), "Alice".to_string()), Ok(()));
    assert_eq!(set_name(&mut backend, ctx(1), "Alicia".to_string()), Ok(()));
    assert_eq!(backend.get_user(&id(1)), Some(row(1, Some("Alicia"), true)));
}

#[test]
fn set_name_allows_a_name_that_another_user_has() {
    let mut backend = Backend::new();
    identity_connected(&mut backend, ctx(1));
    identity_connected(&mut backend, ctx(2));
    assert_eq!(set_name(&mut backend, ctx(1), "Sam".to_string()), Ok(()));
    assert_eq!(set_name(&mut backend, ctx(2), "Sam".to_string()), Ok(()));
    assert_eq!(backend.get_user(&id(1)), Some(row(1, Some("Sam"), true)));
    assert_eq!(backend.get_user(&id(2)), Some(row(2, Some("Sam"), true)));
}

#[test]
fn set_name_touches_no_other_row() {
    let mut backend = Backend::new();
    identity_connected(&mut backend, ctx(1));
    identity_connected(&mut backend, ctx(2));
    assert_eq!(set_name(&mut backend, ctx(2), "Bob".to_string()), Ok(()));
    assert_eq!(backend.get_user(&id(1)), Some(row(1, None, true)));
    assert_eq!(backend.user_count(), 2);
}

#[test]
fn set_name_for_unknown_identity_is_not_found() {
    let mut backend = Backend::new();
    identity_connected(&mut backend, ctx(1));
    assert_eq!(
        set_name(&mut backend, ctx(2), "Bob".to_string()),
        Err(Error::NotFound("unknown user".to_string()))
    );
    assert_eq!(backend.get_user(&id(2)), None);
    assert_eq!(backend.get_user(&id(1)), Some(row(1, None, true)));
    assert_eq!(backend.user_count(), 1);
}

#[test]
fn set_name_checks_the_name_before_the_row() {
    let mut backend = Backend::new();
    assert_eq!(
        set_name(&mut backend, ctx(2), String::new()),
        Err(Error::InvalidArgument("empty name".to_string()))
    );
    assert_eq!(backend.user_count(), 0);
}

#[test]
fn connect_creates_a_row_for_a_new_identity() {
    let mut backend = Backend::new();
    identity_connected(&mut backend, ctx(1));
    assert_eq!(backend.get_user(&id(1)), Some(row(1, None, true)));
    assert_eq!(backend.user_count(), 1);
    assert_eq!(backend.message_count(), 0);
    assert_eq!(backend.diagnostic_count(), 0);
}

#[test]
fn connect_of_a_returning_identity_keeps_the_name() {
    let mut backend = Backend::new();
    identity_connected(&mut backend, ctx(1));
    assert_eq!(set_name(&mut backend, ctx(1), "Alice".to_string()), Ok(()));
    identity_disconnected(&mut backend, ctx(1));
    assert_eq!(backend.get_user(&id(1)), Some(row(1, Some("Alice"), false)));
    identity_connected(&mut backend, ctx(1));
    assert_eq!(backend.get_user(&id(1)), Some(row(1, Some("Alice"), true)));
    assert_eq!(backend.user_count(), 1);
}

#[test]
fn connect_twice_is_connect_once() {
    let mut once = Backend::new();
    identity_connected(&mut once, ctx(1));
    let mut twice = Backend::new();
    identity_connected(&mut twice, ctx(1));
    identity_connected(&mut twice, ctx(1));
    assert_eq!(twice.get_user(&id(1)), once.get_user(&id(1)));
    assert_eq!(twice.get_user(&id(1)), Some(row(1, None, true)));
    assert_eq!(twice.user_count(), 1);
}

#[test]
fn connect_twice_keeps_a_name() {
    let mut backend = Backend::new();
    identity_connected(&mut backend, ctx(1));
    assert_eq!(set_name(&mut backend, ctx(1), "Alice".to_string()), Ok(()));
    identity_connected(&mut backend, ctx(1));
    identity_connected(&mut backend, ctx(1));
    assert_eq!(backend.get_user(&id(1)), Some(row(1, Some("Alice"), true)));
    assert_eq!(backend.user_count(), 1);
}

#[test]
fn connect_touches_no_other_row() {
    let mut backend = Backend::new();
    identity_connected(&mut backend, ctx(1));
    identity_disconnected(&mut backend, ctx(1));
    identity_connected(&mut backend, ctx(2));
    assert_eq!(backend.get_user(&id(1)), Some(row(1, None, false)));
    assert_eq!(backend.get_user(&id(2)), Some(row(2, None, true)));
    assert_eq!(backend.user_count(), 2);
}

#[test]
fn disconnect_sets_a_known_identity_offline() {
    let mut backend = Backend::new();
    identity_connected(&mut backend, ctx(1));
    assert_eq!(set_name(&mut backend, ctx(1), "Alice".to_string()), Ok(()));
    identity_disconnected(&mut backend, ctx(1));
    assert_eq!(backend.get_user(&id(1)), Some(row(1, Some("Alice"), false)));
    assert_eq!(backend.diagnostic_count(), 0);
}

#[test]
fn disconnect_while_offline_stays_offline() {
    let mut backend = Backend::new();
    identity_connected(&mut backend, ctx(1));
    identity_disconnected(&mut backend, ctx(1));
    identity_disconnected(&mut backend, ctx(1));
    assert_eq!(backend.get_user(&id(1)), Some(row(1, None, false)));
    assert_eq!(backend.user_count(), 1);
    assert_eq!(backend.diagnostic_count(), 0);
}

#[test]
fn disconnect_of_unknown_identity_only_warns() {
    let mut backend = Backend::new();
    identity_connected(&mut backend, ctx(1));
    identity_disconnected(&mut backend, ctx(2));
    assert_eq!(backend.get_user(&id(2)), None);
    assert_eq!(backend.get_user(&id(1)), Some(row(1, None, true)));
    assert_eq!(backend.user_count(), 1);
    assert_eq!(backend.message_count(), 0);
    assert_eq!(backend.diagnostic_count(), 1);
    let diagnostic = backend.diagnostic_at(0).unwrap();
    assert_eq!(diagnostic, Diagnostic::UnknownDisconnect(id(2)));
    assert_eq!(diagnostic.level(), Level::Warning);
}
