use ws_frame::WebSocketOpCode;

#[test]
fn test_get_opcode_continuation() {
    // Continuation
    assert_eq!(WebSocketOpCode::Continuation, WebSocketOpCode::from_bit_value(0b00000000));
}

#[test]
fn text_get_opcode_text() {
    // Text
    assert_eq!(WebSocketOpCode::Text, WebSocketOpCode::from_bit_value(0b00000001));
}

#[test]
fn text_get_opcode_binary() {
    // Binary
    assert_eq!(WebSocketOpCode::Binary, WebSocketOpCode::from_bit_value(0b00000010));
}

#[test]
fn text_get_opcode_close_connection() {
    // Close Connection
    assert_eq!(WebSocketOpCode::CloseConnection, WebSocketOpCode::from_bit_value(0b00001000));
}

#[test]
fn text_get_opcode_ping() {
    // Ping
    assert_eq!(WebSocketOpCode::Ping, WebSocketOpCode::from_bit_value(0b00001001));
}

#[test]
fn text_get_opcode_pong() {
    // Pong
    assert_eq!(WebSocketOpCode::Pong, WebSocketOpCode::from_bit_value(0b00001010));
}

#[test]
fn text_get_opcode_reserved_future() {
    assert_eq!(WebSocketOpCode::ReservedFuture, WebSocketOpCode::from_bit_value(0b00000011));
    assert_eq!(WebSocketOpCode::ReservedFuture, WebSocketOpCode::from_bit_value(0b00000100));
    assert_eq!(WebSocketOpCode::ReservedFuture, WebSocketOpCode::from_bit_value(0b00000101));
    assert_eq!(WebSocketOpCode::ReservedFuture, WebSocketOpCode::from_bit_value(0b00000110));
    assert_eq!(WebSocketOpCode::ReservedFuture, WebSocketOpCode::from_bit_value(0b00000111));
    assert_eq!(WebSocketOpCode::ReservedFuture, WebSocketOpCode::from_bit_value(0b00001011));
    assert_eq!(WebSocketOpCode::ReservedFuture, WebSocketOpCode::from_bit_value(0b00001100));
    assert_eq!(WebSocketOpCode::ReservedFuture, WebSocketOpCode::from_bit_value(0b00001101));
    assert_eq!(WebSocketOpCode::ReservedFuture, WebSocketOpCode::from_bit_value(0b00001111));
}

#[test]
fn text_get_opcode_unrecognized() {
    assert_eq!(WebSocketOpCode::Unrecognized, WebSocketOpCode::from_bit_value(0b01000000));
}

#[test]
fn opcode_labels() {
    assert_eq!(WebSocketOpCode::CloseConnection.to_label(), "CloseConnection");
    assert_eq!(WebSocketOpCode::from_bit_value(14).to_label(), "ReservedFuture");
}

#[test]
fn opcode_short_labels_fit_seven_columns() {
    assert_eq!(WebSocketOpCode::CloseConnection.to_short_label(), "Close");
    assert_eq!(WebSocketOpCode::Continuation.to_short_label(), "Cont");
    assert_eq!(WebSocketOpCode::ReservedFuture.to_short_label(), "Rsrvd");
    assert_eq!(WebSocketOpCode::Unrecognized.to_short_label(), "Unknown");
    assert_eq!(WebSocketOpCode::Text.to_short_label(), "Text");
    for bits in 0..=16u8 {
        assert!(WebSocketOpCode::from_bit_value(bits).to_short_label().chars().count() <= 7);
    }
}
