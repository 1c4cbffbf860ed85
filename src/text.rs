use vstd::prelude::*;
use vstd::string::*;

verus! {

/// `n` space characters.
pub open spec fn spaces(n: nat) -> Seq<char> {
    Seq::new(n, |_i: int| ' ')
}

/// `s` followed by spaces up to `width` characters (a left-aligned field).
pub open spec fn align_left(s: Seq<char>, width: nat) -> Seq<char> {
    if s.len() >= width {
        s
    } else {
        s + spaces((width - s.len()) as nat)
    }
}

/// Spaces up to `width` characters followed by `s` (a right-aligned field).
pub open spec fn align_right(s: Seq<char>, width: nat) -> Seq<char> {
    if s.len() >= width {
        s
    } else {
        spaces((width - s.len()) as nat) + s
    }
}

/// `s` centred in a field of `width` characters; an odd leftover space goes right.
pub open spec fn align_center(s: Seq<char>, width: nat) -> Seq<char> {
    if s.len() >= width {
        s
    } else {
        let pad = (width - s.len()) as nat;
        spaces(pad / 2) + s + spaces((pad - pad / 2) as nat)
    }
}

/// The decimal digit for `d < 10`.
pub open spec fn digit_char(d: nat) -> char {
    if d == 0 { '0' }
    else if d == 1 { '1' }
    else if d == 2 { '2' }
    else if d == 3 { '3' }
    else if d == 4 { '4' }
    else if d == 5 { '5' }
    else if d == 6 { '6' }
    else if d == 7 { '7' }
    else if d == 8 { '8' }
    else { '9' }
}

/// The decimal representation of `n`, without leading zeros.
pub open spec fn decimal(n: nat) -> Seq<char>
    decreases n,
{
    if n < 10 {
        seq![digit_char(n)]
    } else {
        decimal(n / 10).push(digit_char(n % 10))
    }
}

/// `"(" + decimal(n) + ")"`.
pub open spec fn parenthesized(n: nat) -> Seq<char> {
    seq!['('] + decimal(n) + seq![')']
}

/// Relies on `String::push`: the character is appended at the end.
#[verifier::external_body]
pub fn push_char(s: &mut String, c: char)
    ensures
        final(s)@ == old(s)@.push(c),
{
    s.push(c)
}

/// Appends `n` spaces to `s`.
pub fn push_spaces(s: &mut String, n: usize)
    ensures
        final(s)@ == old(s)@ + spaces(n as nat),
{
    let ghost start = s@;
    let mut i: usize = 0;
    while i < n
        invariant
            i <= n,
            s@ == start + spaces(i as nat),
        decreases n - i,
    {
        push_char(s, ' ');
        i = i + 1;
        assert(s@ =~= start + spaces(i as nat));
    }
}

/// The decimal digit character for `d`.
fn digit(d: u64) -> (c: char)
    requires
        d < 10,
    ensures
        c == digit_char(d as nat),
{
    match d {
        0 => '0',
        1 => '1',
        2 => '2',
        3 => '3',
        4 => '4',
        5 => '5',
        6 => '6',
        7 => '7',
        8 => '8',
        _ => '9',
    }
}

/// Appends the decimal representation of `n` to `s`.
pub fn push_decimal(s: &mut String, n: u64)
    ensures
        final(s)@ == old(s)@ + decimal(n as nat),
    decreases n,
{
    if n < 10 {
        push_char(s, digit(n));
        assert(final(s)@ =~= old(s)@ + decimal(n as nat));
    } else {
        push_decimal(s, n / 10);
        push_char(s, digit(n % 10));
        assert(final(s)@ =~= old(s)@ + decimal(n as nat));
    }
}

/// The decimal representation of `n` in parentheses, as in `(129)`.
pub fn parenthesized_decimal(n: u64) -> (r: String)
    ensures
        r@ == parenthesized(n as nat),
{
    let mut r = String::new();
    push_char(&mut r, '(');
    push_decimal(&mut r, n);
    push_char(&mut r, ')');
    assert(r@ =~= parenthesized(n as nat));
    r
}

/// The alignment of a text within a fixed-width field.
#[derive(Clone, Copy, Debug, PartialEq, Eq, Structural)]
pub enum Align {
    Left,
    Right,
    Center,
}

/// The field that `align` gives `s` in `width` characters.
pub open spec fn aligned(s: Seq<char>, width: nat, align: Align) -> Seq<char> {
    match align {
        Align::Left => align_left(s, width),
        Align::Right => align_right(s, width),
        Align::Center => align_center(s, width),
    }
}

/// Lays `s` out in a field of `width` characters.
pub fn pad(s: &str, width: usize, align: Align) -> (r: String)
    ensures
        r@ == aligned(s@, width as nat, align),
{
    let len = s.unicode_len();
    let mut r = String::new();
    if len >= width {
        r.append(s);
        assert(r@ =~= aligned(s@, width as nat, align));
        return r;
    }
    let fill: usize = width - len;
    let (before, after): (usize, usize) = match align {
        Align::Left => (0, fill),
        Align::Right => (fill, 0),
        Align::Center => (fill / 2, fill - fill / 2),
    };
    push_spaces(&mut r, before);
    r.append(s);
    push_spaces(&mut r, after);
    assert(spaces(0) =~= Seq::<char>::empty());
    assert(r@ =~= aligned(s@, width as nat, align));
    r
}

} // verus!
