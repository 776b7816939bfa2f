use wsproto::codes::{CloseCode, OpCode};

#[test]
fn opcode_from_u8() {
    let byte = 2u8;
    assert_eq!(OpCode::from(byte), OpCode::Binary);
}

#[test]
fn opcode_into_u8() {
    let text = OpCode::Text;
    let byte: u8 = text.into();
    assert_eq!(byte, 1u8);
}

#[test]
fn closecode_from_u16() {
    let byte = 1008u16;
    assert_eq!(CloseCode::from(byte), CloseCode::Policy);
}

#[test]
fn closecode_into_u16() {
    let text = CloseCode::Away;
    let byte: u16 = text.into();
    assert_eq!(byte, 1001u16);
}

#[test]
fn opcode_round_trip_all_assigned() {
    let all = [
        OpCode::Continue,
        OpCode::Text,
        OpCode::Binary,
        OpCode::Close,
        OpCode::Ping,
        OpCode::Pong,
    ];
    for op in all {
        assert_eq!(OpCode::from_wire(op.to_wire()), op);
    }
}

#[test]
fn opcode_wire_values() {
    assert_eq!(OpCode::Continue.to_wire(), 0);
    assert_eq!(OpCode::Text.to_wire(), 1);
    assert_eq!(OpCode::Binary.to_wire(), 2);
    assert_eq!(OpCode::Close.to_wire(), 8);
    assert_eq!(OpCode::Ping.to_wire(), 9);
    assert_eq!(OpCode::Pong.to_wire(), 10);
}

#[test]
fn opcode_unassigned_values_decode_to_bad() {
    for byte in 0u8..=255 {
        let assigned = matches!(byte, 0 | 1 | 2 | 8 | 9 | 10);
        if assigned {
            assert_ne!(OpCode::from_wire(byte), OpCode::Bad);
        } else {
            assert_eq!(OpCode::from_wire(byte), OpCode::Bad);
        }
    }
}

#[test]
fn closecode_round_trip_all_named() {
    let named = [
        CloseCode::Normal,
        CloseCode::Away,
        CloseCode::Protocol,
        CloseCode::Unsupported,
        CloseCode::Status,
        CloseCode::Abnormal,
        CloseCode::Invalid,
        CloseCode::Policy,
        CloseCode::Size,
        CloseCode::Extension,
        CloseCode::Error,
        CloseCode::Restart,
        CloseCode::Again,
        CloseCode::Tls,
        CloseCode::Empty,
    ];
    for code in named {
        assert_eq!(CloseCode::from_wire(code.to_wire()), code);
    }
}

#[test]
fn closecode_wire_values() {
    assert_eq!(CloseCode::Normal.to_wire(), 1000);
    assert_eq!(CloseCode::Tls.to_wire(), 1015);
    assert_eq!(CloseCode::Empty.to_wire(), 0);
    assert_eq!(CloseCode::Other(4321).to_wire(), 4321);
}

#[test]
fn closecode_unnamed_values_decode_to_other() {
    for value in [1u16, 999, 1004, 1014, 1016, 2000, 65535] {
        assert_eq!(CloseCode::from_wire(value), CloseCode::Other(value));
        assert_eq!(CloseCode::Other(value).to_wire(), value);
    }
}

#[test]
fn closecode_named_value_wins_over_other() {
    assert_eq!(CloseCode::Other(1000).to_wire(), 1000);
    assert_eq!(CloseCode::from_wire(1000), CloseCode::Normal);
}

#[test]
fn opcode_labels() {
    assert_eq!(OpCode::Continue.label(), "CONTINUE");
    assert_eq!(OpCode::Text.label(), "TEXT");
    assert_eq!(OpCode::Binary.label(), "BINARY");
    assert_eq!(OpCode::Close.label(), "CLOSE");
    assert_eq!(OpCode::Ping.label(), "PING");
    assert_eq!(OpCode::Pong.label(), "PONG");
    assert_eq!(OpCode::Bad.label(), "BAD");
}
