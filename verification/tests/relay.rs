use websocat::relay::{
    on_read, on_received, on_sent, MessageKind, ReadNext, ReadOutcome, Received, Sent, BUFSIZ,
    QSIZ,
};

#[test]
fn sizes() {
    assert_eq!(BUFSIZ, 8192);
    assert_eq!(QSIZ, 1);
}

#[test]
fn receiving() {
    assert_eq!(on_received(MessageKind::Close), Received::Stop);
    assert_eq!(on_received(MessageKind::Ping), Received::AnswerPong);
    assert_eq!(on_received(MessageKind::Text), Received::WriteOut);
    assert_eq!(on_received(MessageKind::Binary), Received::WriteOut);
    assert_eq!(on_received(MessageKind::Pong), Received::WriteOut);
}

#[test]
fn sending() {
    assert_eq!(on_sent(MessageKind::Close, true), Sent::Stop);
    assert_eq!(on_sent(MessageKind::Close, false), Sent::Stop);
    assert_eq!(on_sent(MessageKind::Binary, true), Sent::Continue);
    assert_eq!(on_sent(MessageKind::Binary, false), Sent::CloseAndStop);
    assert_eq!(on_sent(MessageKind::Pong, true), Sent::Continue);
    assert_eq!(on_sent(MessageKind::Pong, false), Sent::CloseAndStop);
}

#[test]
fn reading() {
    assert_eq!(on_read(ReadOutcome::Data(0)), ReadNext::Finish);
    assert_eq!(on_read(ReadOutcome::Data(1)), ReadNext::Forward(1));
    assert_eq!(on_read(ReadOutcome::Data(8192)), ReadNext::Forward(8192));
    assert_eq!(on_read(ReadOutcome::Interrupted), ReadNext::Retry);
    assert_eq!(on_read(ReadOutcome::WouldBlock), ReadNext::Retry);
    assert_eq!(on_read(ReadOutcome::Failed), ReadNext::Finish);
}
