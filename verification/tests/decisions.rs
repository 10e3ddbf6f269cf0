use chat_server::{
    decide_connect, decide_disconnect, decide_send_message, decide_set_name, Accepted, Arrival,
    Departure, Diagnostic, Error, Identity, Level, Message, ReducerContext, Timestamp, User,
};

fn id(byte: u8) -> Identity {
    Identity::from_byte_array([byte; 32])
}

fn ctx(byte: u8, micros: u64) -> ReducerContext {
    ReducerContext { sender: id(byte), timestamp: Timestamp { micros_since_epoch: micros } }
}

fn row(byte: u8, name: Option<&str>, online: bool) -> User {
    User { identity: id(byte), name: name.map(|n| n.to_string()), online }
}

#[test]
fn decide_set_name_replaces_the_name_only() {
    assert_eq!(
        decide_set_name(Some(row(1, None, true)), "Alice".to_string()),
        Ok(row(1, Some("Alice"), true))
    );
    assert_eq!(
        decide_set_name(Some(row(1, Some("Al"), false)), "Alice".to_string()),
        Ok(row(1, Some("Alice"), false))
    );
}

#[test]
fn decide_set_name_refuses_the_empty_name_first() {
    let expected = Err(Error::InvalidArgument("empty name".to_string()));
    assert_eq!(decide_set_name(Some(row(1, None, true)), String::new()), expected);
    assert_eq!(decide_set_name(None, String::new()), expected);
}

#[test]
fn decide_set_name_refuses_a_caller_without_row() {
    assert_eq!(
        decide_set_name(None, "Alice".to_string()),
        Err(Error::NotFound("unknown user".to_string()))
    );
}

#[test]
fn decide_connect_inserts_a_fresh_row() {
    assert_eq!(decide_connect(id(7), None), Arrival::Insert(row(7, None, true)));
}

#[test]
fn decide_connect_sets_a_known_row_online() {
    assert_eq!(
        decide_connect(id(7), Some(row(7, Some("Zed"), false))),
        Arrival::Replace(row(7, Some("Zed"), true))
    );
    assert_eq!(
        decide_connect(id(7), Some(row(7, None, true))),
        Arrival::Replace(row(7, None, true))
    );
}

#[test]
fn decide_disconnect_sets_a_known_row_offline() {
    assert_eq!(
        decide_disconnect(id(7), Some(row(7, Some("Zed"), true))),
        Departure::Replace(row(7, Some("Zed"), false))
    );
    assert_eq!(
        decide_disconnect(id(7), Some(row(7, None, false))),
        Departure::Replace(row(7, None, false))
    );
}

#[test]
fn decide_disconnect_reports_an_unknown_identity() {
    let departure = decide_disconnect(id(9), None);
    assert_eq!(departure, Departure::Report(Diagnostic::UnknownDisconnect(id(9))));
    match departure {
        Departure::Report(diagnostic) => assert_eq!(diagnostic.level(), Level::Warning),
        Departure::Replace(_) => panic!("nothing is to be written"),
    }
}

#[test]
fn decide_send_message_builds_the_row_and_the_record() {
    let accepted = decide_send_message(ctx(3, 1_700_000_000_000_000), "hello".to_string());
    assert_eq!(
        accepted,
        Ok(Accepted {
            row: Message {
                sender: id(3),
                sent: Timestamp { micros_since_epoch: 1_700_000_000_000_000 },
                text: "hello".to_string(),
            },
            diagnostic: Diagnostic::MessageAccepted("hello".to_string()),
        })
    );
    assert_eq!(accepted.unwrap().diagnostic.level(), Level::Info);
}

#[test]
fn decide_send_message_refuses_the_empty_text() {
    assert_eq!(
        decide_send_message(ctx(3, 0), String::new()),
        Err(Error::InvalidArgument("empty message".to_string()))
    );
}

#[test]
fn identities_compare_by_all_bytes() {
    let mut bytes = [5u8; 32];
    let a = Identity::from_byte_array(bytes);
    assert!(a.same(&id(5)));
    bytes[31] = 6;
    let b = Identity::from_byte_array(bytes);
    assert!(!a.same(&b));
    assert!(!b.same(&a));
    bytes[31] = 5;
    bytes[0] = 4;
    assert!(!a.same(&Identity::from_byte_array(bytes)));
    assert_eq!(a.bytes, [5u8; 32]);
}

#[test]
fn row_builders_change_one_field() {
    assert_eq!(User::fresh(id(2)), row(2, None, true));
    assert_eq!(row(2, None, true).with_name("N".to_string()), row(2, Some("N"), true));
    assert_eq!(row(2, Some("N"), true).with_online(false), row(2, Some("N"), false));
    assert_eq!(row(2, Some("N"), true).clone(), row(2, Some("N"), true));
}
