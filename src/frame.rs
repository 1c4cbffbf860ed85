use vstd::prelude::*;
use vstd::slice::slice_subrange;
use crate::bits::{bit_at, get_bit, get_bits_from_byte};
use crate::opcode::{opcode_of, WebSocketOpCode};
use crate::style::FormatStyle;
use crate::text::{decimal, push_decimal};
use vstd::string::*;

verus! {

/// The number of bytes in a masking key.
pub const NUM_MASK_BYTES: usize = 4;

/// The length of a WebSocket data frame payload, in the encoding that carried it.
#[derive(Clone, Copy, Debug, PartialEq, Eq, Structural)]
pub enum PayloadLength {
    Short(u8),
    Medium(u16),
    Long(u64),
}

impl PayloadLength {
    /// The number of payload bytes.
    pub open spec fn value(self) -> nat {
        match self {
            PayloadLength::Short(n) => n as nat,
            PayloadLength::Medium(n) => n as nat,
            PayloadLength::Long(n) => n as nat,
        }
    }

    /// The number of extension bytes that carried the length.
    pub open spec fn extension_len_spec(self) -> nat {
        match self {
            PayloadLength::Short(_) => 0,
            PayloadLength::Medium(_) => 2,
            PayloadLength::Long(_) => 8,
        }
    }

    /// The number of extension bytes that carried the length: 0, 2 or 8.
    pub fn extension_len(&self) -> (r: usize)
        ensures
            r as nat == self.extension_len_spec(),
    {
        match self {
            PayloadLength::Short(_) => 0,
            PayloadLength::Medium(_) => 2,
            PayloadLength::Long(_) => 8,
        }
    }

    /// The length as a sentence, as in `Short (4 bytes)`.
    pub open spec fn text(self) -> Seq<char> {
        match self {
            PayloadLength::Short(_) => "Short ("@ + decimal(self.value()) + " bytes)"@,
            PayloadLength::Medium(_) => "Medium ("@ + decimal(self.value()) + " bytes)"@,
            PayloadLength::Long(_) => "Long ("@ + decimal(self.value()) + " bytes)"@,
        }
    }

    /// The length as a sentence, as in `Short (4 bytes)`.
    pub fn to_string(&self) -> (r: String)
        ensures
            r@ == self.text(),
    {
        let mut r = match self {
            PayloadLength::Short(_) => String::from_str("Short ("),
            PayloadLength::Medium(_) => String::from_str("Medium ("),
            PayloadLength::Long(_) => String::from_str("Long ("),
        };
        push_decimal(&mut r, self.num_bytes());
        r.append(" bytes)");
        r
    }

    /// The number of payload bytes.
    pub fn num_bytes(&self) -> (r: u64)
        ensures
            r as nat == self.value(),
    {
        match self {
            PayloadLength::Short(n) => *n as u64,
            PayloadLength::Medium(n) => *n as u64,
            PayloadLength::Long(n) => *n,
        }
    }
}

/// The number of extension bytes that a 7-bit length code announces.
pub open spec fn extension_len_of(code: u8) -> nat {
    if code <= 125 {
        0
    } else if code == 126 {
        2
    } else {
        8
    }
}

/// The unsigned integer that `s` encodes, most significant byte first.
pub open spec fn be_value(s: Seq<u8>) -> nat
    decreases s.len(),
{
    if s.len() == 0 {
        0
    } else {
        be_value(s.drop_last()) * 256 + s.last() as nat
    }
}

/// `256` raised to `n`.
pub open spec fn pow256(n: nat) -> nat
    decreases n,
{
    if n == 0 {
        1
    } else {
        256 * pow256((n - 1) as nat)
    }
}

/// The payload length that a length code and the extension bytes after it give.
pub open spec fn resolve_length(code: u8, ext: Seq<u8>) -> PayloadLength {
    if code <= 125 {
        PayloadLength::Short(code)
    } else if code == 126 {
        PayloadLength::Medium(be_value(ext.take(2)) as u16)
    } else {
        PayloadLength::Long(be_value(ext.take(8)) as u64)
    }
}

proof fn lemma_be_value_bound(s: Seq<u8>)
    ensures
        be_value(s) < pow256(s.len()),
    decreases s.len(),
{
    if s.len() > 0 {
        lemma_be_value_bound(s.drop_last());
        let p = pow256((s.len() - 1) as nat);
        let v = be_value(s.drop_last());
        let b = s.last() as nat;
        assert(v * 256 + b < 256 * p) by (nonlinear_arith)
            requires
                v < p,
                b < 256,
        ;
    }
}

/// The integer that the first `n` bytes of `bytes` encode, most significant first.
fn be_bytes_value(bytes: &Vec<u8>, n: usize) -> (r: u64)
    requires
        n <= 8,
        n <= bytes@.len(),
    ensures
        r as nat == be_value(bytes@.take(n as int)),
{
    let mut acc: u64 = 0;
    let mut i: usize = 0;
    while i < n
        invariant
            i <= n <= 8,
            n <= bytes@.len(),
            acc as nat == be_value(bytes@.take(i as int)),
        decreases n - i,
    {
        proof {
            lemma_be_value_bound(bytes@.take(i as int));
            reveal_with_fuel(pow256, 8);
            assert(bytes@.take(i + 1).drop_last() =~= bytes@.take(i as int));
            let p = pow256(i as nat);
            assert(p <= 72057594037927936);
            assert(acc as nat * 256 + bytes@[i as int] < 18446744073709551616) by (nonlinear_arith)
                requires
                    acc < p,
                    p <= 72057594037927936,
                    bytes@[i as int] < 256,
            ;
        }
        acc = acc * 256 + bytes[i] as u64;
        i = i + 1;
    }
    acc
}

/// The payload after masking: byte `i` XORed with key byte `i mod 4`.
pub open spec fn unmask_spec(masked: Seq<u8>, key: Seq<u8>) -> Seq<u8> {
    Seq::new(masked.len(), |i: int| masked[i] ^ key[i % 4])
}

/// The one-character preview of each byte: the character whose code point is the
/// byte's value (bytes from 128 up show as Latin-1 characters, not as decoded text).
pub open spec fn preview_chars(bytes: Seq<u8>) -> Seq<char> {
    Seq::new(bytes.len(), |i: int| bytes[i] as char)
}

/// Applying a masking key twice gives back the bytes it was applied to.
pub proof fn lemma_unmask_involution(payload: Seq<u8>, key: Seq<u8>)
    requires
        key.len() == 4,
    ensures
        unmask_spec(unmask_spec(payload, key), key) == payload,
{
    let once = unmask_spec(payload, key);
    let twice = unmask_spec(once, key);
    assert forall|i: int| 0 <= i < payload.len() implies #[trigger] twice[i] == payload[i] by {
        let a = payload[i];
        let k = key[i % 4];
        assert((a ^ k) ^ k == a) by (bit_vector);
    }
    assert(twice =~= payload);
}

/// XORs each byte of `masked` with the masking-key byte at its position modulo 4.
pub fn unmask(masked: &[u8], key: &[u8; 4]) -> (r: Vec<u8>)
    ensures
        r@ == unmask_spec(masked@, key@),
{
    let mut r: Vec<u8> = Vec::new();
    let mut i: usize = 0;
    while i < masked.len()
        invariant
            i <= masked@.len(),
            key@.len() == 4,
            r@ =~= unmask_spec(masked@.take(i as int), key@),
        decreases masked@.len() - i,
    {
        r.push(masked[i] ^ key[i % NUM_MASK_BYTES]);
        i = i + 1;
        assert(r@ =~= unmask_spec(masked@.take(i as int), key@));
    }
    assert(masked@.take(i as int) =~= masked@);
    r
}

/// The preview character of each byte.
pub fn preview(bytes: &Vec<u8>) -> (r: Vec<char>)
    ensures
        r@ == preview_chars(bytes@),
{
    let mut r: Vec<char> = Vec::new();
    let mut i: usize = 0;
    while i < bytes.len()
        invariant
            i <= bytes@.len(),
            r@ =~= preview_chars(bytes@.take(i as int)),
        decreases bytes@.len() - i,
    {
        r.push(bytes[i] as char);
        i = i + 1;
        assert(r@ =~= preview_chars(bytes@.take(i as int)));
    }
    assert(bytes@.take(i as int) =~= bytes@);
    r
}

/// The part of a frame that a buffer was too short to hold.
#[derive(Clone, Copy, Debug, PartialEq, Eq, Structural)]
pub enum FrameField {
    /// The two header bytes.
    Header,
    /// The 16- or 64-bit extended payload length.
    ExtendedLength,
    /// The 4-byte masking key.
    MaskingKey,
    /// The payload: the rest of the buffer, which must be exactly as long as
    /// the length announces.
    Payload,
}

/// Why a buffer does not decode as a frame.
#[derive(Clone, Copy, Debug, PartialEq, Eq, Structural)]
pub enum DecodeError {
    /// The buffer does not hold `field` as announced: the field starts at byte
    /// `offset` and needs `expected` bytes, and `actual` are there (fewer, or for
    /// the payload, which runs to the end of the buffer, also more).
    MalformedInput { field: FrameField, offset: usize, expected: u64, actual: usize },
    /// The mask bit is clear: only masked frames are decoded.
    UnsupportedVariant,
}

/// The 7-bit payload length code of a frame: the low bits of its second byte.
pub open spec fn length_code(data: Seq<u8>) -> u8 {
    data[1] & 0x7fu8
}

/// Where the masking key starts: after the header and the extension bytes.
pub open spec fn key_offset(data: Seq<u8>) -> nat {
    2 + extension_len_of(length_code(data))
}

/// Where the payload starts: after the masking key.
pub open spec fn payload_start(data: Seq<u8>) -> nat {
    key_offset(data) + 4
}

/// The payload length that the header of `data` announces.
pub open spec fn declared_length(data: Seq<u8>) -> PayloadLength {
    resolve_length(length_code(data), data.subrange(2, key_offset(data) as int))
}

/// The error that decoding `data` meets first, if any. The payload is the rest of
/// the buffer, so a buffer with bytes before or after the announced length is
/// malformed.
pub open spec fn decode_error(data: Seq<u8>) -> Option<DecodeError> {
    if data.len() < 2 {
        Some(DecodeError::MalformedInput {
            field: FrameField::Header,
            offset: 0,
            expected: 2,
            actual: data.len() as usize,
        })
    } else if !bit_at(data[1], 0) {
        Some(DecodeError::UnsupportedVariant)
    } else if data.len() < key_offset(data) {
        Some(DecodeError::MalformedInput {
            field: FrameField::ExtendedLength,
            offset: 2,
            expected: extension_len_of(length_code(data)) as u64,
            actual: (data.len() - 2) as usize,
        })
    } else if data.len() < payload_start(data) {
        Some(DecodeError::MalformedInput {
            field: FrameField::MaskingKey,
            offset: key_offset(data) as usize,
            expected: 4,
            actual: (data.len() - key_offset(data)) as usize,
        })
    } else if data.len() - payload_start(data) != declared_length(data).value() {
        Some(DecodeError::MalformedInput {
            field: FrameField::Payload,
            offset: payload_start(data) as usize,
            expected: declared_length(data).value() as u64,
            actual: (data.len() - payload_start(data)) as usize,
        })
    } else {
        None
    }
}

/// A decoded, masked WebSocket data frame. The masked payload is a view into the
/// buffer it was decoded from; the unmasked payload and its previews are owned.
pub struct WebSocketFrame<'a> {
    pub frame_len: usize,
    pub is_payload_masked: bool,
    pub payload_length: PayloadLength,
    pub format_style: FormatStyle,
    pub fin_bit: bool,
    pub rsv1: bool,
    pub rsv2: bool,
    pub rsv3: bool,
    pub opcode_bits: u8,
    pub opcode: WebSocketOpCode,
    pub mask_bit: bool,
    pub payload_length_code: u8,
    pub payload_length_bytes: Vec<u8>,
    pub masking_key: [u8; 4],
    pub masked_payload: &'a [u8],
    pub unmasked_payload: Vec<u8>,
    pub payload_chars: Vec<char>,
}

impl<'a> WebSocketFrame<'a> {
    /// Derives a payload length from its 7-bit length code and the extension bytes that
    /// follow it (RFC 6455, section 5.2).
    pub fn get_payload_length(code: u8, ext_bytes: Vec<u8>) -> (r: PayloadLength)
        requires
            code <= 127,
            ext_bytes@.len() >= extension_len_of(code),
        ensures
            r == resolve_length(code, ext_bytes@),
            r.extension_len_spec() == extension_len_of(code),
            code <= 125 ==> r == PayloadLength::Short(code) && r.extension_len_spec() == 0,
    {
        if code <= 125 {
            PayloadLength::Short(code)
        } else if code == 126 {
            let v = be_bytes_value(&ext_bytes, 2);
            proof {
                lemma_be_value_bound(ext_bytes@.take(2));
                reveal_with_fuel(pow256, 3);
            }
            PayloadLength::Medium(v as u16)
        } else {
            PayloadLength::Long(be_bytes_value(&ext_bytes, 8))
        }
    }

    /// The frame is consistent: the length bytes match the length, the payload has the
    /// announced length, and the unmasked payload and previews derive from it.
    pub open spec fn wf(&self) -> bool {
        &&& self.mask_bit
        &&& self.is_payload_masked == self.mask_bit
        &&& self.opcode == opcode_of(self.opcode_bits)
        &&& self.opcode_bits < 16
        &&& self.payload_length_code <= 127
        &&& self.payload_length == resolve_length(self.payload_length_code, self.payload_length_bytes@)
        &&& match self.payload_length {
            PayloadLength::Short(n) => self.payload_length_bytes@ == seq![n],
            _ => self.payload_length_bytes@.len() == self.payload_length.extension_len_spec(),
        }
        &&& self.masked_payload@.len() == self.payload_length.value()
        &&& self.unmasked_payload@ == unmask_spec(self.masked_payload@, self.masking_key@)
        &&& self.payload_chars@ == preview_chars(self.unmasked_payload@)
    }

    /// The frame holds what the bytes of `data` say, field by field.
    pub open spec fn decodes(&self, data: Seq<u8>) -> bool {
        let ko = key_offset(data) as int;
        let ps = payload_start(data) as int;
        &&& self.wf()
        &&& self.frame_len == data.len()
        &&& self.fin_bit == bit_at(data[0], 0)
        &&& self.rsv1 == bit_at(data[0], 1)
        &&& self.rsv2 == bit_at(data[0], 2)
        &&& self.rsv3 == bit_at(data[0], 3)
        &&& self.opcode_bits == data[0] & 0x0fu8
        &&& self.mask_bit == bit_at(data[1], 0)
        &&& self.payload_length_code == length_code(data)
        &&& self.payload_length == declared_length(data)
        &&& self.payload_length_bytes@ == if ko == 2 {
            seq![length_code(data)]
        } else {
            data.subrange(2, ko)
        }
        &&& self.masking_key@ == data.subrange(ko, ko + 4)
        &&& self.masked_payload@ == data.subrange(ps, ps + self.payload_length.value())
    }

    /// Decodes a masked frame from `data`. Fails, with the first field that the
    /// buffer is too short for, or on an unmasked frame.
    pub fn from_bytes(data: &'a Vec<u8>) -> (r: Result<WebSocketFrame<'a>, DecodeError>)
        ensures
            match r {
                Ok(frame) => decode_error(data@) is None && frame.decodes(data@),
                Err(e) => decode_error(data@) == Some(e),
            },
    {
        let len = data.len();
        if len < 2 {
            return Err(DecodeError::MalformedInput {
                field: FrameField::Header,
                offset: 0,
                expected: 2,
                actual: len,
            });
        }
        let opcode_bits = get_bits_from_byte(data[0], 0b00001111);
        let is_payload_masked = get_bit(data[1], 0);
        let payload_length_code = get_bits_from_byte(data[1], 0b01111111);
        proof {
            let b0 = data@[0];
            let b1 = data@[1];
            assert(b0 & 0x0fu8 < 16) by (bit_vector);
            assert(b1 & 0x7fu8 <= 127) by (bit_vector);
        }
        if !is_payload_masked {
            return Err(DecodeError::UnsupportedVariant);
        }
        let ext_len: usize = if payload_length_code <= 125 {
            0
        } else if payload_length_code == 126 {
            2
        } else {
            8
        };
        if len - 2 < ext_len {
            return Err(DecodeError::MalformedInput {
                field: FrameField::ExtendedLength,
                offset: 2,
                expected: ext_len as u64,
                actual: len - 2,
            });
        }
        let key_ix: usize = 2 + ext_len;
        if len - key_ix < NUM_MASK_BYTES {
            return Err(DecodeError::MalformedInput {
                field: FrameField::MaskingKey,
                offset: key_ix,
                expected: 4,
                actual: len - key_ix,
            });
        }
        let mut extension_data: Vec<u8> = Vec::new();
        let mut ix: usize = 2;
        while ix < key_ix
            invariant
                2 <= ix <= key_ix <= data@.len(),
                extension_data@ =~= data@.subrange(2, ix as int),
            decreases key_ix - ix,
        {
            extension_data.push(data[ix]);
            ix = ix + 1;
        }
        let ext_copy = extension_data.clone();
        assert(ext_copy@ =~= extension_data@);
        let payload_length = Self::get_payload_length(payload_length_code, ext_copy);
        let payload_start_index: usize = key_ix + NUM_MASK_BYTES;
        let num_payload_bytes = payload_length.num_bytes();
        if ((len - payload_start_index) as u64) != num_payload_bytes {
            return Err(DecodeError::MalformedInput {
                field: FrameField::Payload,
                offset: payload_start_index,
                expected: num_payload_bytes,
                actual: len - payload_start_index,
            });
        }
        let payload_end: usize = payload_start_index + num_payload_bytes as usize;
        let payload_length_bytes: Vec<u8> = if ext_len == 0 {
            let mut bytes: Vec<u8> = Vec::new();
            bytes.push(payload_length_code);
            assert(bytes@ =~= seq![payload_length_code]);
            bytes
        } else {
            extension_data
        };
        let masking_key: [u8; 4] = [data[key_ix], data[key_ix + 1], data[key_ix + 2], data[key_ix + 3]];
        let masked_payload = slice_subrange(data.as_slice(), payload_start_index, payload_end);
        let unmasked_payload = unmask(masked_payload, &masking_key);
        let payload_chars = preview(&unmasked_payload);
        let frame = WebSocketFrame {
            frame_len: len,
            is_payload_masked,
            payload_length,
            format_style: FormatStyle::new(),
            fin_bit: get_bit(data[0], 0),
            rsv1: get_bit(data[0], 1),
            rsv2: get_bit(data[0], 2),
            rsv3: get_bit(data[0], 3),
            opcode_bits,
            opcode: WebSocketOpCode::from_bit_value(opcode_bits),
            mask_bit: is_payload_masked,
            payload_length_code,
            payload_length_bytes,
            masking_key,
            masked_payload,
            unmasked_payload,
            payload_chars,
        };
        assert(frame.masking_key@ =~= data@.subrange(key_ix as int, key_ix + 4));
        Ok(frame)
    }
}

} // verus!
