use vstd::prelude::*;
use vstd::string::*;
use crate::bits::{bit_at, bit_char, get_bit};
use crate::text::{
    align_center, align_right, decimal, pad, parenthesized, parenthesized_decimal, push_char,
    push_decimal, Align,
};

verus! {

/// The number of bytes in a qword row.
pub const BITS_IN_BYTE: usize = 8;

/// `s` repeated `n` times.
pub open spec fn repeat(s: Seq<char>, n: nat) -> Seq<char>
    decreases n,
{
    if n == 0 {
        Seq::empty()
    } else {
        repeat(s, (n - 1) as nat) + s
    }
}

/// The eight binary digits of `b`, most significant first.
pub open spec fn binary8(b: u8) -> Seq<char> {
    Seq::new(8, |j: int| bit_char(bit_at(b, j as u8)))
}

/// The column titles ` Byte 0 |` to ` Byte n-1 |`.
pub open spec fn byte_labels(n: nat) -> Seq<char>
    decreases n,
{
    if n == 0 {
        Seq::empty()
    } else {
        byte_labels((n - 1) as nat) + " Byte "@ + decimal((n - 1) as nat) + " |"@
    }
}

/// The binary digits of each byte, each followed by `|`.
pub open spec fn binary_cells(d: Seq<u8>) -> Seq<char>
    decreases d.len(),
{
    if d.len() == 0 {
        Seq::empty()
    } else {
        binary_cells(d.drop_last()) + binary8(d.last()) + seq!['|']
    }
}

/// The value of each byte in parentheses, right-aligned in eight columns, each followed by `|`.
pub open spec fn value_cells(d: Seq<u8>) -> Seq<char>
    decreases d.len(),
{
    if d.len() == 0 {
        Seq::empty()
    } else {
        value_cells(d.drop_last()) + align_right(parenthesized(d.last() as nat), 8) + seq!['|']
    }
}

/// The head of a qword table: a border, the eight byte column titles, a border.
pub open spec fn qword_table_header() -> Seq<char> {
    "       +"@ + repeat("--------+"@, 8) + "\n Bytes |"@ + byte_labels(8) + "\n+------+"@
        + repeat("--------+"@, 8) + "\n"@
}

/// Row `q` of a qword table, showing `d`, or an error line when `d` does not hold
/// exactly `n` bytes.
pub open spec fn qword_row(q: nat, d: Seq<u8>, n: nat) -> Seq<char> {
    if d.len() != n {
        "ERROR: Data must contain exactly "@ + decimal(n) + " bytes. QWORD: "@ + decimal(q) + "\n"@
    } else {
        "|QWORD |"@ + binary_cells(d) + "\n|"@ + align_center(decimal(q), 6) + "|"@ + value_cells(d)
            + "\n+------+"@ + repeat("--------+"@, n) + "\n"@
    }
}

/// The rows of whole qwords among `data`: row `k + 1` shows bytes `8k..8k + 8`.
pub open spec fn full_rows(data: Seq<u8>, k: nat) -> Seq<char>
    decreases k,
{
    if k == 0 {
        Seq::empty()
    } else {
        let j = (k - 1) as nat;
        full_rows(data, j) + qword_row(k, data.subrange(8 * j as int, (8 * j + 8) as int), 8)
    }
}

/// The qword table of `data`: the head, a row per whole qword, and a last row with
/// the remaining bytes (none when the length is a multiple of eight).
pub open spec fn qword_table(data: Seq<u8>) -> Seq<char> {
    let full = data.len() / 8;
    qword_table_header() + full_rows(data, full) + qword_row(
        full + 1,
        data.subrange(8 * full as int, data.len() as int),
        data.len() % 8,
    )
}

/// Appends `s` `n` times.
fn push_repeat(r: &mut String, s: &str, n: usize)
    ensures
        final(r)@ == old(r)@ + repeat(s@, n as nat),
{
    let ghost start = r@;
    let mut i: usize = 0;
    while i < n
        invariant
            i <= n,
            r@ == start + repeat(s@, i as nat),
        decreases n - i,
    {
        r.append(s);
        i = i + 1;
        assert(r@ =~= start + repeat(s@, i as nat));
    }
}

/// Appends the eight binary digits of `b`.
fn push_binary8(r: &mut String, b: u8)
    ensures
        final(r)@ == old(r)@ + binary8(b),
{
    let ghost start = r@;
    let mut j: u8 = 0;
    while j < 8
        invariant
            j <= 8,
            r@ =~= start + Seq::new(j as nat, |k: int| bit_char(bit_at(b, k as u8))),
        decreases 8 - j,
    {
        let bit = get_bit(b, j);
        push_char(r, if bit { '1' } else { '0' });
        j = j + 1;
    }
    assert(r@ =~= start + binary8(b));
}

/// A table of bytes, eight to a row, each in binary and in decimal.
pub struct ByteList<'a> {
    pub data: &'a Vec<u8>,
}

impl<'a> ByteList<'a> {
    /// A table over `data`.
    pub fn from_bytes(data: &'a Vec<u8>) -> (r: ByteList<'a>)
        ensures
            r.data@ == data@,
    {
        ByteList { data }
    }

    /// Formats the bytes as a qword table.
    pub fn format(&self) -> (r: String)
        ensures
            r@ == qword_table(self.data@),
    {
        let mut result = self.format_qword_table_header();
        let len = self.data.len();
        let num_qwords: usize = len / BITS_IN_BYTE;
        let mut i: usize = 0;
        while i < num_qwords
            invariant
                i <= num_qwords == len / 8,
                len == self.data@.len(),
                result@ == qword_table_header() + full_rows(self.data@, i as nat),
            decreases num_qwords - i,
        {
            let from_byte_ix = i * BITS_IN_BYTE;
            let to_byte_ix = from_byte_ix + BITS_IN_BYTE;
            let row = self.format_qword_row(
                i + 1,
                vstd::slice::slice_subrange(self.data.as_slice(), from_byte_ix, to_byte_ix),
                BITS_IN_BYTE,
            );
            result.append(row.as_str());
            i = i + 1;
        }
        let remaining_bytes: usize = len % BITS_IN_BYTE;
        let from_byte_ix: usize = num_qwords * BITS_IN_BYTE;
        let row = self.format_qword_row(
            num_qwords + 1,
            vstd::slice::slice_subrange(self.data.as_slice(), from_byte_ix, len),
            remaining_bytes,
        );
        result.append(row.as_str());
        result
    }

    /// Formats the head of a qword table.
    pub fn format_qword_table_header(&self) -> (r: String)
        ensures
            r@ == qword_table_header(),
    {
        let mut r = String::from_str("       +");
        push_repeat(&mut r, "--------+", 8);
        r.append("\n Bytes |");
        let ghost start = r@;
        let mut i: usize = 0;
        while i < BITS_IN_BYTE
            invariant
                i <= 8,
                r@ == start + byte_labels(i as nat),
            decreases 8 - i,
        {
            r.append(" Byte ");
            push_decimal(&mut r, i as u64);
            r.append(" |");
            i = i + 1;
            assert(r@ =~= start + byte_labels(i as nat));
        }
        r.append("\n+------+");
        push_repeat(&mut r, "--------+", 8);
        r.append("\n");
        r
    }

    /// Formats row `qword_number` of a qword table, which shows `data`; an error line
    /// when `data` does not hold exactly `num_bytes` bytes.
    pub fn format_qword_row(&self, qword_number: usize, data: &[u8], num_bytes: usize) -> (r: String)
        ensures
            r@ == qword_row(qword_number as nat, data@, num_bytes as nat),
    {
        if data.len() != num_bytes {
            let mut r = String::from_str("ERROR: Data must contain exactly ");
            push_decimal(&mut r, num_bytes as u64);
            r.append(" bytes. QWORD: ");
            push_decimal(&mut r, qword_number as u64);
            r.append("\n");
            return r;
        }
        let mut r = String::from_str("|QWORD |");
        let ghost s0 = r@;
        let mut i: usize = 0;
        while i < num_bytes
            invariant
                i <= num_bytes == data@.len(),
                r@ == s0 + binary_cells(data@.take(i as int)),
            decreases num_bytes - i,
        {
            push_binary8(&mut r, data[i]);
            push_char(&mut r, '|');
            assert(data@.take(i + 1).drop_last() =~= data@.take(i as int));
            i = i + 1;
            assert(r@ =~= s0 + binary_cells(data@.take(i as int)));
        }
        r.append("\n|");
        let mut number = String::new();
        push_decimal(&mut number, qword_number as u64);
        r.append(pad(number.as_str(), 6, Align::Center).as_str());
        r.append("|");
        let ghost s1 = r@;
        let mut k: usize = 0;
        while k < num_bytes
            invariant
                k <= num_bytes == data@.len(),
                r@ == s1 + value_cells(data@.take(k as int)),
            decreases num_bytes - k,
        {
            let value = parenthesized_decimal(data[k] as u64);
            r.append(pad(value.as_str(), 8, Align::Right).as_str());
            push_char(&mut r, '|');
            assert(data@.take(k + 1).drop_last() =~= data@.take(k as int));
            k = k + 1;
            assert(r@ =~= s1 + value_cells(data@.take(k as int)));
        }
        r.append("\n+------+");
        push_repeat(&mut r, "--------+", num_bytes);
        r.append("\n");
        assert(data@.take(num_bytes as int) =~= data@);
        assert(r@ =~= qword_row(qword_number as nat, data@, num_bytes as nat));
        r
    }
}

} // verus!
