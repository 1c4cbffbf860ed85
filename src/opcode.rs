use vstd::prelude::*;

verus! {

/// What a frame's 4-bit opcode says its payload is.
#[derive(Clone, Copy, Debug, PartialEq, Eq, Structural)]
pub enum WebSocketOpCode {
    Continuation,
    Text,
    Binary,
    CloseConnection,
    Ping,
    Pong,
    Unrecognized,
    ReservedFuture,
}

/// The category of an opcode value: the six defined codes, the reserved codes of
/// the 4-bit range, and anything wider as unrecognized.
pub open spec fn opcode_of(bits: u8) -> WebSocketOpCode {
    if bits == 0 {
        WebSocketOpCode::Continuation
    } else if bits == 1 {
        WebSocketOpCode::Text
    } else if bits == 2 {
        WebSocketOpCode::Binary
    } else if bits == 8 {
        WebSocketOpCode::CloseConnection
    } else if bits == 9 {
        WebSocketOpCode::Ping
    } else if bits == 10 {
        WebSocketOpCode::Pong
    } else if bits < 16 {
        WebSocketOpCode::ReservedFuture
    } else {
        WebSocketOpCode::Unrecognized
    }
}

impl WebSocketOpCode {
    /// The variant's name, as the diagram shows it.
    pub open spec fn label(self) -> Seq<char> {
        match self {
            WebSocketOpCode::Continuation => "Continuation"@,
            WebSocketOpCode::Text => "Text"@,
            WebSocketOpCode::Binary => "Binary"@,
            WebSocketOpCode::CloseConnection => "CloseConnection"@,
            WebSocketOpCode::Ping => "Ping"@,
            WebSocketOpCode::Pong => "Pong"@,
            WebSocketOpCode::Unrecognized => "Unrecognized"@,
            WebSocketOpCode::ReservedFuture => "ReservedFuture"@,
        }
    }

    /// The variant's name shortened to fit the diagram's seven-column opcode cell.
    pub open spec fn short_label(self) -> Seq<char> {
        match self {
            WebSocketOpCode::Continuation => "Cont"@,
            WebSocketOpCode::Text => "Text"@,
            WebSocketOpCode::Binary => "Binary"@,
            WebSocketOpCode::CloseConnection => "Close"@,
            WebSocketOpCode::Ping => "Ping"@,
            WebSocketOpCode::Pong => "Pong"@,
            WebSocketOpCode::Unrecognized => "Unknown"@,
            WebSocketOpCode::ReservedFuture => "Rsrvd"@,
        }
    }

    /// Gets an opcode from a 4-bit value.
    pub fn from_bit_value(opcode_bits: u8) -> (r: WebSocketOpCode)
        ensures
            r == opcode_of(opcode_bits),
    {
        match opcode_bits {
            0 => WebSocketOpCode::Continuation,
            1 => WebSocketOpCode::Text,
            2 => WebSocketOpCode::Binary,
            8 => WebSocketOpCode::CloseConnection,
            9 => WebSocketOpCode::Ping,
            10 => WebSocketOpCode::Pong,
            3 | 4 | 5 | 6 | 7 | 11 | 12 | 13 | 14 | 15 => WebSocketOpCode::ReservedFuture,
            _ => WebSocketOpCode::Unrecognized,
        }
    }

    /// The variant's name, as the diagram shows it.
    pub fn to_label(&self) -> (r: &'static str)
        ensures
            r@ == self.label(),
    {
        match self {
            WebSocketOpCode::Continuation => "Continuation",
            WebSocketOpCode::Text => "Text",
            WebSocketOpCode::Binary => "Binary",
            WebSocketOpCode::CloseConnection => "CloseConnection",
            WebSocketOpCode::Ping => "Ping",
            WebSocketOpCode::Pong => "Pong",
            WebSocketOpCode::Unrecognized => "Unrecognized",
            WebSocketOpCode::ReservedFuture => "ReservedFuture",
        }
    }

    /// The variant's name shortened to fit the diagram's seven-column opcode cell:
    /// at most seven characters.
    pub fn to_short_label(&self) -> (r: &'static str)
        ensures
            r@ == self.short_label(),
            r@.len() <= 7,
    {
        proof {
            reveal_strlit("Cont");
            reveal_strlit("Text");
            reveal_strlit("Binary");
            reveal_strlit("Close");
            reveal_strlit("Ping");
            reveal_strlit("Pong");
            reveal_strlit("Unknown");
            reveal_strlit("Rsrvd");
        }
        match self {
            WebSocketOpCode::Continuation => "Cont",
            WebSocketOpCode::Text => "Text",
            WebSocketOpCode::Binary => "Binary",
            WebSocketOpCode::CloseConnection => "Close",
            WebSocketOpCode::Ping => "Ping",
            WebSocketOpCode::Pong => "Pong",
            WebSocketOpCode::Unrecognized => "Unknown",
            WebSocketOpCode::ReservedFuture => "Rsrvd",
        }
    }
}

/// Every value of the 4-bit opcode field is classified: the six defined codes map to
/// their categories and the ten others to `ReservedFuture`, never to `Unrecognized`.
pub proof fn lemma_opcode_field_total(bits: u8)
    requires
        bits < 16,
    ensures
        opcode_of(bits) != WebSocketOpCode::Unrecognized,
        bits == 0 ==> opcode_of(bits) == WebSocketOpCode::Continuation,
        bits == 1 ==> opcode_of(bits) == WebSocketOpCode::Text,
        bits == 2 ==> opcode_of(bits) == WebSocketOpCode::Binary,
        bits == 8 ==> opcode_of(bits) == WebSocketOpCode::CloseConnection,
        bits == 9 ==> opcode_of(bits) == WebSocketOpCode::Ping,
        bits == 10 ==> opcode_of(bits) == WebSocketOpCode::Pong,
        (3 <= bits <= 7 || 11 <= bits <= 15) ==> opcode_of(bits) == WebSocketOpCode::ReservedFuture,
{
}

} // verus!
