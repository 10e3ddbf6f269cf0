use chat_server::{
    identity_connected, identity_disconnected, send_message, set_name, Backend, Error, Identity,
    Message, ReducerContext, Timestamp, User,
};

fn id(byte: u8) -> Identity {
    Identity::from_byte_array([byte; 32])
}

fn ctx(byte: u8, micros: u64) -> ReducerContext {
    ReducerContext { sender: id(byte), timestamp: Timestamp { micros_since_epoch: micros } }
}

#[test]
fn connect_name_send_disconnect() {
    let a = id(0xA);
    let t = 1_000_000;
    let mut backend = Backend::new();

    identity_connected(&mut backend, ctx(0xA, 1));
    assert_eq!(backend.get_user(&a), Some(User { identity: a, name: None, online: true }));

    assert_eq!(set_name(&mut backend, ctx(0xA, 2), "Alice".to_string()), Ok(()));
    assert_eq!(
        backend.get_user(&a),
        Some(User { identity: a, name: Some("Alice".to_string()), online: true })
    );

    assert_eq!(send_message(&mut backend, ctx(0xA, t), "hi".to_string()), Ok(()));
    assert_eq!(backend.message_count(), 1);
    assert_eq!(
        backend.message_at(0),
        Some(Message {
            sender: a,
            sent: Timestamp { micros_since_epoch: t },
            text: "hi".to_string(),
        })
    );

    identity_disconnected(&mut backend, ctx(0xA, t + 1));
    assert_eq!(
        backend.get_user(&a),
        Some(User { identity: a, name: Some("Alice".to_string()), online: false })
    );
    assert_eq!(backend.user_count(), 1);
    assert_eq!(backend.message_count(), 1);
}

#[test]
fn empty_message_leaves_the_row_count() {
    let mut backend = Backend::new();
    assert_eq!(send_message(&mut backend, ctx(0xB, 1), "one".to_string()), Ok(()));
    for byte in [0u8, 0xB, 0xC, 0xFF] {
        let before = backend.message_count();
        assert_eq!(
            send_message(&mut backend, ctx(byte, 2), String::new()),
            Err(Error::InvalidArgument("empty message".to_string()))
        );
        assert_eq!(backend.message_count(), before);
    }
    assert_eq!(backend.message_count(), 1);
}

#[test]
fn two_users_talk() {
    let mut backend = Backend::new();
    identity_connected(&mut backend, ctx(1, 1));
    identity_connected(&mut backend, ctx(2, 2));
    assert_eq!(set_name(&mut backend, ctx(1, 3), "Ann".to_string()), Ok(()));
    assert_eq!(send_message(&mut backend, ctx(2, 4), "hello Ann".to_string()), Ok(()));
    assert_eq!(send_message(&mut backend, ctx(1, 5), "hello you".to_string()), Ok(()));
    identity_disconnected(&mut backend, ctx(2, 6));
    assert_eq!(
        set_name(&mut backend, ctx(3, 7), "Eve".to_string()),
        Err(Error::NotFound("unknown user".to_string()))
    );

    assert_eq!(backend.user_count(), 2);
    assert_eq!(
        backend.get_user(&id(1)),
        Some(User { identity: id(1), name: Some("Ann".to_string()), online: true })
    );
    assert_eq!(
        backend.get_user(&id(2)),
        Some(User { identity: id(2), name: None, online: false })
    );
    assert_eq!(backend.message_count(), 2);
    assert_eq!(backend.message_at(0).unwrap().sender, id(2));
    assert_eq!(backend.message_at(1).unwrap().text, "hello you");
    assert_eq!(backend.diagnostic_count(), 2);
}
