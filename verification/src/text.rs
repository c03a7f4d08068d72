use vstd::prelude::*;

verus! {

/// The character of a hexadecimal digit (lower case), `d < 16`.
pub open spec fn digit_char(d: nat) -> char {
    if d < 10 {
        (('0' as nat) + d) as char
    } else {
        (('a' as nat) + d - 10) as char
    }
}

/// Decimal representation of `n`, without sign or leading zeros.
pub open spec fn decimal(n: nat) -> Seq<char>
    decreases n,
{
    if n < 10 {
        seq![digit_char(n)]
    } else {
        decimal(n / 10).push(digit_char(n % 10))
    }
}

/// `s` right-aligned in a field of `width` characters, filled on the left with `fill`.
pub open spec fn pad_left(s: Seq<char>, width: nat, fill: char) -> Seq<char> {
    if s.len() < width {
        Seq::new((width - s.len()) as nat, |i: int| fill) + s
    } else {
        s
    }
}

/// Two lower-case hexadecimal digits of a byte.
pub open spec fn byte_hex(b: u8) -> Seq<char> {
    seq![digit_char((b / 16) as nat), digit_char((b % 16) as nat)]
}

/// Four lower-case hexadecimal digits of a 16-bit value.
pub open spec fn hex4_text(v: u16) -> Seq<char> {
    seq![
        digit_char((v / 4096) as nat),
        digit_char((v / 256 % 16) as nat),
        digit_char((v / 16 % 16) as nat),
        digit_char((v % 16) as nat),
    ]
}

/// The bytes as two-digit hexadecimal numbers separated by single spaces.
pub open spec fn hex_text(bytes: Seq<u8>) -> Seq<char>
    decreases bytes.len(),
{
    if bytes.len() == 0 {
        Seq::empty()
    } else if bytes.len() == 1 {
        byte_hex(bytes[0])
    } else {
        hex_text(bytes.drop_last()) + seq![' '] + byte_hex(bytes.last())
    }
}

/// Appends one character to a string by calling std's `String::push`, which the contract
/// trusts to append exactly `c` and change nothing else.
#[verifier::external_body]
pub(crate) fn push_char(s: &mut String, c: char)
    ensures
        final(s)@ == old(s)@.push(c),
{
    s.push(c);
}

/// The hexadecimal digit character for `d`.
fn digit(d: u8) -> (c: char)
    requires
        d < 16,
    ensures
        c == digit_char(d as nat),
{
    match d {
        0 => '0',
        1 => '1',
        2 => '2',
        3 => '3',
        4 => '4',
        5 => '5',
        6 => '6',
        7 => '7',
        8 => '8',
        9 => '9',
        10 => 'a',
        11 => 'b',
        12 => 'c',
        13 => 'd',
        14 => 'e',
        _ => 'f',
    }
}

/// Appends the decimal representation of `n`.
pub fn push_decimal(s: &mut String, n: u64)
    ensures
        final(s)@ == old(s)@ + decimal(n as nat),
    decreases n,
{
    if n >= 10 {
        push_decimal(s, n / 10);
    }
    let d = (n % 10) as u8;
    push_char(s, digit(d));
    assert(old(s)@ + decimal(n as nat) =~= if n >= 10 {
        old(s)@ + decimal((n / 10) as nat) + seq![digit_char((n % 10) as nat)]
    } else {
        old(s)@.push(digit_char(n as nat))
    });
}

/// Appends `n` in decimal, right-aligned in `width` characters filled with `fill`.
pub fn push_padded_decimal(s: &mut String, n: u64, width: usize, fill: char)
    ensures
        final(s)@ == old(s)@ + pad_left(decimal(n as nat), width as nat, fill),
{
    let mut digits = String::new();
    push_decimal(&mut digits, n);
    assert(digits@ =~= decimal(n as nat));
    let len = digits.as_str().unicode_len();
    let mut k: usize = len;
    while k < width
        invariant
            len == decimal(n as nat).len(),
            len <= k <= width || (width < len && k == len),
            s@ == old(s)@ + Seq::new((k - len) as nat, |i: int| fill),
        decreases width - k,
    {
        push_char(s, fill);
        k = k + 1;
        assert(s@ =~= old(s)@ + Seq::new((k - len) as nat, |i: int| fill));
    }
    s.append(digits.as_str());
    assert(s@ =~= old(s)@ + pad_left(decimal(n as nat), width as nat, fill));
}

/// Appends two lower-case hexadecimal digits of `b`.
fn push_hex_byte(s: &mut String, b: u8)
    ensures
        final(s)@ == old(s)@ + byte_hex(b),
{
    push_char(s, digit(b / 16));
    push_char(s, digit(b % 16));
    assert(s@ =~= old(s)@ + byte_hex(b));
}

/// Appends `v` as four lower-case hexadecimal digits.
pub fn push_hex4(s: &mut String, v: u16)
    ensures
        final(s)@ == old(s)@ + hex4_text(v),
{
    push_char(s, digit((v / 4096) as u8));
    push_char(s, digit((v / 256 % 16) as u8));
    push_char(s, digit((v / 16 % 16) as u8));
    push_char(s, digit((v % 16) as u8));
    assert(s@ =~= old(s)@ + hex4_text(v));
}

/// The bytes as lower-case two-digit hexadecimal numbers separated by single spaces.
pub fn hex(bytes: &[u8]) -> (r: String)
    ensures
        r@ == hex_text(bytes@),
{
    let mut r = String::new();
    let mut i: usize = 0;
    while i < bytes.len()
        invariant
            i <= bytes@.len(),
            r@ == hex_text(bytes@.take(i as int)),
        decreases bytes.len() - i,
    {
        let ghost before = r@;
        if i > 0 {
            push_char(&mut r, ' ');
        }
        push_hex_byte(&mut r, bytes[i]);
        assert(bytes@.take(i + 1).drop_last() =~= bytes@.take(i as int));
        assert(r@ =~= hex_text(bytes@.take(i + 1)));
        i = i + 1;
    }
    assert(bytes@.take(bytes.len() as int) =~= bytes@);
    r
}

/// A log line: the local time as `hh:mm:ss` (each field zero-padded to two digits), two
/// spaces, then the message.
pub open spec fn log_line_text(hour: u16, minute: u16, second: u16, msg: Seq<char>) -> Seq<char> {
    pad_left(decimal(hour as nat), 2, '0') + seq![':'] + pad_left(decimal(minute as nat), 2, '0')
        + seq![':'] + pad_left(decimal(second as nat), 2, '0') + seq![' ', ' '] + msg
}

/// Prefixes a message with the time of day at which it is logged.
pub fn log_line(hour: u16, minute: u16, second: u16, msg: &str) -> (r: String)
    ensures
        r@ == log_line_text(hour, minute, second, msg@),
{
    let mut s = String::new();
    push_padded_decimal(&mut s, hour as u64, 2, '0');
    push_char(&mut s, ':');
    push_padded_decimal(&mut s, minute as u64, 2, '0');
    push_char(&mut s, ':');
    push_padded_decimal(&mut s, second as u64, 2, '0');
    push_char(&mut s, ' ');
    push_char(&mut s, ' ');
    s.append(msg);
    assert(s@ =~= log_line_text(hour, minute, second, msg@));
    s
}

} // verus!
