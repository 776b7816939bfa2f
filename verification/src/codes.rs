//! Bidirectional tables between the symbolic frame opcodes / close-status
//! codes of the WebSocket protocol and their numeric wire values.

use vstd::prelude::*;

verus! {

/// Operation code of a WebSocket frame header.
#[derive(Debug, PartialEq, Eq, Structural, Clone, Copy)]
pub enum OpCode {
    /// A continuation frame of a fragmented message.
    Continue,
    /// A text data frame.
    Text,
    /// A binary data frame.
    Binary,
    /// A close control frame.
    Close,
    /// A ping control frame.
    Ping,
    /// A pong control frame.
    Pong,
    /// An unassigned opcode value was received.
    Bad,
}

/// The wire value of an opcode. `Bad` has no assigned wire value; it is
/// mapped to the close-frame value, the safe degradation when an invalid
/// in-memory state must still be serialized.
pub open spec fn opcode_wire(op: OpCode) -> u8 {
    match op {
        OpCode::Continue => 0,
        OpCode::Text => 1,
        OpCode::Binary => 2,
        OpCode::Close => 8,
        OpCode::Ping => 9,
        OpCode::Pong => 10,
        OpCode::Bad => 8,
    }
}

/// Whether a wire value is one of the six assigned opcode values.
pub open spec fn is_assigned_opcode(byte: u8) -> bool {
    byte == 0 || byte == 1 || byte == 2 || byte == 8 || byte == 9 || byte == 10
}

/// The opcode a wire value decodes to; every unassigned value yields `Bad`.
pub open spec fn wire_opcode(byte: u8) -> OpCode {
    if byte == 0 {
        OpCode::Continue
    } else if byte == 1 {
        OpCode::Text
    } else if byte == 2 {
        OpCode::Binary
    } else if byte == 8 {
        OpCode::Close
    } else if byte == 9 {
        OpCode::Ping
    } else if byte == 10 {
        OpCode::Pong
    } else {
        OpCode::Bad
    }
}

impl OpCode {
    /// Encodes an opcode as its wire value. `Bad` is excluded: it is a
    /// decode-side sentinel that a well-formed sender never emits.
    pub fn to_wire(self) -> (byte: u8)
        requires
            self != OpCode::Bad,
        ensures
            byte == opcode_wire(self),
            is_assigned_opcode(byte),
    {
        match self {
            OpCode::Continue => 0,
            OpCode::Text => 1,
            OpCode::Binary => 2,
            OpCode::Close => 8,
            OpCode::Ping => 9,
            OpCode::Pong => 10,
            OpCode::Bad => 8,
        }
    }

    /// Decodes a wire value; total, every unassigned value yields `Bad`.
    pub fn from_wire(byte: u8) -> (op: OpCode)
        ensures
            op == wire_opcode(byte),
            !is_assigned_opcode(byte) ==> op == OpCode::Bad,
    {
        match byte {
            0 => OpCode::Continue,
            1 => OpCode::Text,
            2 => OpCode::Binary,
            8 => OpCode::Close,
            9 => OpCode::Ping,
            10 => OpCode::Pong,
            _ => OpCode::Bad,
        }
    }
}

/// The display name of an opcode.
pub open spec fn opcode_label(op: OpCode) -> Seq<char> {
    match op {
        OpCode::Continue => "CONTINUE"@,
        OpCode::Text => "TEXT"@,
        OpCode::Binary => "BINARY"@,
        OpCode::Close => "CLOSE"@,
        OpCode::Ping => "PING"@,
        OpCode::Pong => "PONG"@,
        OpCode::Bad => "BAD"@,
    }
}

impl OpCode {
    /// The opcode's display name, in upper case.
    pub fn label(&self) -> (s: String)
        ensures
            s@ == opcode_label(*self),
    {
        match self {
            OpCode::Continue => "CONTINUE".to_owned(),
            OpCode::Text => "TEXT".to_owned(),
            OpCode::Binary => "BINARY".to_owned(),
            OpCode::Close => "CLOSE".to_owned(),
            OpCode::Ping => "PING".to_owned(),
            OpCode::Pong => "PONG".to_owned(),
            OpCode::Bad => "BAD".to_owned(),
        }
    }
}

/// Decoding a wire value recovers every opcode that encoding may be given.
pub proof fn lemma_opcode_round_trip(op: OpCode)
    requires
        op != OpCode::Bad,
    ensures
        wire_opcode(opcode_wire(op)) == op,
{
}

impl From<u8> for OpCode {
    fn from(byte: u8) -> (op: OpCode) {
        OpCode::from_wire(byte)
    }
}

impl vstd::std_specs::convert::FromSpecImpl<u8> for OpCode {
    open spec fn obeys_from_spec() -> bool {
        true
    }

    open spec fn from_spec(byte: u8) -> OpCode {
        wire_opcode(byte)
    }
}

impl From<OpCode> for u8 {
    fn from(op: OpCode) -> (byte: u8) {
        match op {
            OpCode::Continue => 0,
            OpCode::Text => 1,
            OpCode::Binary => 2,
            OpCode::Close => 8,
            OpCode::Ping => 9,
            OpCode::Pong => 10,
            // a decode-side sentinel: the close-frame value is the safe
            // degradation if one is ever serialized
            OpCode::Bad => 8,
        }
    }
}

impl vstd::std_specs::convert::FromSpecImpl<OpCode> for u8 {
    open spec fn obeys_from_spec() -> bool {
        true
    }

    open spec fn from_spec(op: OpCode) -> u8 {
        opcode_wire(op)
    }
}

/// Status code carried in a close control frame, saying why an endpoint is
/// closing the connection.
#[derive(Debug, PartialEq, Eq, Structural, Clone, Copy)]
pub enum CloseCode {
    /// A normal closure: the purpose for which the connection was
    /// established has been fulfilled.
    Normal,
    /// An endpoint is going away, such as a server going down or a browser
    /// having navigated away from a page.
    Away,
    /// An endpoint is terminating the connection due to a protocol error.
    Protocol,
    /// An endpoint received a type of data it cannot accept.
    Unsupported,
    /// No status code was present in the closing frame.
    Status,
    /// The connection was dropped abnormally, without a closing frame.
    Abnormal,
    /// An endpoint received data inconsistent with the message's type.
    Invalid,
    /// An endpoint received a message that violates its policy.
    Policy,
    /// An endpoint received a message too big for it to process.
    Size,
    /// A client expected the server to negotiate one or more extensions,
    /// but the server did not return them in the handshake response.
    Extension,
    /// The server encountered an unexpected condition that prevented it
    /// from fulfilling the request.
    Error,
    /// The server is restarting.
    Restart,
    /// The server is overloaded and the client should reconnect later or
    /// elsewhere.
    Again,
    /// The reserved value that marks a TLS handshake failure; never sent on
    /// the wire, usable as an in-memory placeholder.
    Tls,
    /// The reserved empty placeholder value; never sent on the wire.
    Empty,
    /// Any close value outside the named table, carried unchanged.
    Other(u16),
}

/// The wire value of a close code; `Other` carries its value unchanged.
pub open spec fn closecode_wire(code: CloseCode) -> u16 {
    match code {
        CloseCode::Normal => 1000,
        CloseCode::Away => 1001,
        CloseCode::Protocol => 1002,
        CloseCode::Unsupported => 1003,
        CloseCode::Status => 1005,
        CloseCode::Abnormal => 1006,
        CloseCode::Invalid => 1007,
        CloseCode::Policy => 1008,
        CloseCode::Size => 1009,
        CloseCode::Extension => 1010,
        CloseCode::Error => 1011,
        CloseCode::Restart => 1012,
        CloseCode::Again => 1013,
        CloseCode::Tls => 1015,
        CloseCode::Empty => 0,
        CloseCode::Other(value) => value,
    }
}

/// Whether a wire value coincides with one of the fifteen named close codes.
pub open spec fn is_named_close_value(value: u16) -> bool {
    value == 0 || (1000 <= value <= 1013 && value != 1004) || value == 1015
}

/// The close code a wire value decodes to; a value claimed by a named
/// variant always yields that variant, every other value yields `Other`.
pub open spec fn wire_closecode(value: u16) -> CloseCode {
    if value == 1000 {
        CloseCode::Normal
    } else if value == 1001 {
        CloseCode::Away
    } else if value == 1002 {
        CloseCode::Protocol
    } else if value == 1003 {
        CloseCode::Unsupported
    } else if value == 1005 {
        CloseCode::Status
    } else if value == 1006 {
        CloseCode::Abnormal
    } else if value == 1007 {
        CloseCode::Invalid
    } else if value == 1008 {
        CloseCode::Policy
    } else if value == 1009 {
        CloseCode::Size
    } else if value == 1010 {
        CloseCode::Extension
    } else if value == 1011 {
        CloseCode::Error
    } else if value == 1012 {
        CloseCode::Restart
    } else if value == 1013 {
        CloseCode::Again
    } else if value == 1015 {
        CloseCode::Tls
    } else if value == 0 {
        CloseCode::Empty
    } else {
        CloseCode::Other(value)
    }
}

impl CloseCode {
    /// Encodes a close code as its wire value; total, `Other` passes its
    /// value through unchanged.
    pub fn to_wire(self) -> (value: u16)
        ensures
            value == closecode_wire(self),
            self matches CloseCode::Other(v) ==> value == v,
    {
        match self {
            CloseCode::Normal => 1000,
            CloseCode::Away => 1001,
            CloseCode::Protocol => 1002,
            CloseCode::Unsupported => 1003,
            CloseCode::Status => 1005,
            CloseCode::Abnormal => 1006,
            CloseCode::Invalid => 1007,
            CloseCode::Policy => 1008,
            CloseCode::Size => 1009,
            CloseCode::Extension => 1010,
            CloseCode::Error => 1011,
            CloseCode::Restart => 1012,
            CloseCode::Again => 1013,
            CloseCode::Tls => 1015,
            CloseCode::Empty => 0,
            CloseCode::Other(value) => value,
        }
    }

    /// Decodes a wire value; total, every value outside the named table
    /// yields `Other` carrying the value unchanged.
    pub fn from_wire(value: u16) -> (code: CloseCode)
        ensures
            code == wire_closecode(value),
            !is_named_close_value(value) ==> code == CloseCode::Other(value),
    {
        match value {
            1000 => CloseCode::Normal,
            1001 => CloseCode::Away,
            1002 => CloseCode::Protocol,
            1003 => CloseCode::Unsupported,
            1005 => CloseCode::Status,
            1006 => CloseCode::Abnormal,
            1007 => CloseCode::Invalid,
            1008 => CloseCode::Policy,
            1009 => CloseCode::Size,
            1010 => CloseCode::Extension,
            1011 => CloseCode::Error,
            1012 => CloseCode::Restart,
            1013 => CloseCode::Again,
            1015 => CloseCode::Tls,
            0 => CloseCode::Empty,
            _ => CloseCode::Other(value),
        }
    }
}

/// Decoding a wire value recovers every named close code.
pub proof fn lemma_closecode_round_trip(code: CloseCode)
    requires
        !(code matches CloseCode::Other(_)),
    ensures
        wire_closecode(closecode_wire(code)) == code,
{
}

/// A wire value outside the named table decodes to `Other` and `Other`
/// encodes it back unchanged.
pub proof fn lemma_closecode_other_round_trip(value: u16)
    requires
        !is_named_close_value(value),
    ensures
        wire_closecode(value) == CloseCode::Other(value),
        closecode_wire(CloseCode::Other(value)) == value,
{
}

impl From<u16> for CloseCode {
    fn from(value: u16) -> (code: CloseCode) {
        CloseCode::from_wire(value)
    }
}

impl vstd::std_specs::convert::FromSpecImpl<u16> for CloseCode {
    open spec fn obeys_from_spec() -> bool {
        true
    }

    open spec fn from_spec(value: u16) -> CloseCode {
        wire_closecode(value)
    }
}

impl From<CloseCode> for u16 {
    fn from(code: CloseCode) -> (value: u16) {
        code.to_wire()
    }
}

impl vstd::std_specs::convert::FromSpecImpl<CloseCode> for u16 {
    open spec fn obeys_from_spec() -> bool {
        true
    }

    open spec fn from_spec(code: CloseCode) -> u16 {
        closecode_wire(code)
    }
}

} // verus!
