use telnet_provider::message::create_broker_message;

#[test]
fn broker_message_tags_the_connection() {
    let m = create_broker_message(vec![104, 105], "example.com:23");
    assert_eq!(m.subject, "telnet.example.com:23");
    assert_eq!(m.body, vec![104, 105]);
    assert!(m.reply_to.is_none());
}

#[test]
fn broker_message_keeps_binary_payload() {
    let payload = vec![0u8, 255, 128, 7];
    let m = create_broker_message(payload.clone(), "h:0");
    assert_eq!(m.subject, "telnet.h:0");
    assert_eq!(m.body, payload);
}
