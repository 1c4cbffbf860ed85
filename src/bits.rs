use vstd::prelude::*;
use crate::text::push_char;

verus! {

/// Bit `pos` of `byte`, counting from the most significant bit (position 0).
/// Positions past 7 read as clear.
pub open spec fn bit_at(byte: u8, pos: u8) -> bool {
    pos < 8 && (byte >> ((7 - pos) as u8)) & 1u8 == 1u8
}

/// The character that shows a bit.
pub open spec fn bit_char(bit: bool) -> char {
    if bit { '1' } else { '0' }
}

/// The last `num_bits` bits of `byte`, most significant first, separated by single spaces.
pub open spec fn bits_text(byte: u8, num_bits: nat) -> Seq<char> {
    if num_bits == 0 {
        Seq::empty()
    } else {
        Seq::new(
            (2 * num_bits - 1) as nat,
            |j: int|
                if j % 2 == 0 {
                    bit_char(bit_at(byte, (8 - num_bits + j / 2) as u8))
                } else {
                    ' '
                },
        )
    }
}

/// The bits of `byte` that `mask` selects.
pub fn get_bits_from_byte(byte: u8, mask: u8) -> (r: u8)
    ensures
        r == byte & mask,
{
    byte & mask
}

/// Reads bit `bit_position` of `byte`, position 0 being the most significant bit.
pub fn get_bit(byte: u8, bit_position: u8) -> (r: bool)
    ensures
        r == bit_at(byte, bit_position),
{
    proof {
        assert(byte & 0x80u8 != 0 <==> (byte >> 7u8) & 1u8 == 1u8) by (bit_vector);
        assert(byte & 0x40u8 != 0 <==> (byte >> 6u8) & 1u8 == 1u8) by (bit_vector);
        assert(byte & 0x20u8 != 0 <==> (byte >> 5u8) & 1u8 == 1u8) by (bit_vector);
        assert(byte & 0x10u8 != 0 <==> (byte >> 4u8) & 1u8 == 1u8) by (bit_vector);
        assert(byte & 0x08u8 != 0 <==> (byte >> 3u8) & 1u8 == 1u8) by (bit_vector);
        assert(byte & 0x04u8 != 0 <==> (byte >> 2u8) & 1u8 == 1u8) by (bit_vector);
        assert(byte & 0x02u8 != 0 <==> (byte >> 1u8) & 1u8 == 1u8) by (bit_vector);
        assert(byte & 0x01u8 != 0 <==> (byte >> 0u8) & 1u8 == 1u8) by (bit_vector);
    }
    match bit_position {
        0 => byte & 0b10000000 != 0,
        1 => byte & 0b01000000 != 0,
        2 => byte & 0b00100000 != 0,
        3 => byte & 0b00010000 != 0,
        4 => byte & 0b00001000 != 0,
        5 => byte & 0b00000100 != 0,
        6 => byte & 0b00000010 != 0,
        7 => byte & 0b00000001 != 0,
        _ => false,
    }
}

/// `"1"` for a set bit, `"0"` for a clear one.
pub fn bit_str(bit: bool) -> (r: &'static str)
    ensures
        r@ == seq![bit_char(bit)],
{
    proof {
        reveal_strlit("1");
        reveal_strlit("0");
    }
    if bit {
        "1"
    } else {
        "0"
    }
}

/// The last `num_bits` bits of `byte` as `"0 1 1 ..."`, most significant first.
pub fn byte_str(byte: u8, num_bits: u8) -> (r: String)
    requires
        num_bits <= 8,
    ensures
        r@ == bits_text(byte, num_bits as nat),
{
    let mut r = String::new();
    let first: u8 = 8 - num_bits;
    let mut k: u8 = 0;
    while k < num_bits
        invariant
            k <= num_bits <= 8,
            first == 8 - num_bits,
            k == 0 ==> r@.len() == 0,
            k > 0 ==> r@.len() == 2 * k - 1,
            forall|j: int|
                0 <= j < r@.len() ==> #[trigger] r@[j] == (if j % 2 == 0 {
                    bit_char(bit_at(byte, (first + j / 2) as u8))
                } else {
                    ' '
                }),
        decreases num_bits - k,
    {
        if k > 0 {
            push_char(&mut r, ' ');
        }
        let bit = get_bit(byte, first + k);
        push_char(&mut r, if bit { '1' } else { '0' });
        k = k + 1;
    }
    assert(r@ =~= bits_text(byte, num_bits as nat));
    r
}

} // verus!
