use vstd::prelude::*;

verus! {

/// `String::push` appends one character.
pub assume_specification[ String::push ](s: &mut String, ch: char)
    ensures
        final(s)@ == old(s)@.push(ch),
;

/// The lower-case hexadecimal digit for `d` (`0 <= d < 16`).
pub open spec fn hex_digit(d: int) -> char {
    if d < 10 {
        (d + 48) as char
    } else {
        (d + 87) as char
    }
}

/// The decimal digit for `d` (`0 <= d < 10`).
pub open spec fn dec_digit(d: int) -> char {
    (d + 48) as char
}

/// Decimal notation of `n`, without leading zeros.
pub open spec fn dec(n: nat) -> Seq<char>
    decreases n,
{
    if n < 10 {
        seq![dec_digit(n as int)]
    } else {
        dec(n / 10).push(dec_digit((n % 10) as int))
    }
}

/// Decimal notation of a byte.
pub open spec fn dec_byte(b: u8) -> Seq<char> {
    dec(b as nat)
}

/// Decimal notation of a size.
pub open spec fn dec_usize(n: usize) -> Seq<char> {
    dec(n as nat)
}

/// Two lower-case hexadecimal digits of a byte (`{:02x}`).
pub open spec fn hex2(b: u8) -> Seq<char> {
    seq![hex_digit((b / 16) as int), hex_digit((b % 16) as int)]
}

/// Four lower-case hexadecimal digits of a 16-bit value (`{:04x}`).
pub open spec fn hex4(v: u16) -> Seq<char> {
    seq![
        hex_digit((v / 4096) as int),
        hex_digit(((v / 256) % 16) as int),
        hex_digit(((v / 16) % 16) as int),
        hex_digit((v % 16) as int),
    ]
}

/// `0x` followed by four hexadecimal digits (`0x{:04x}`).
pub open spec fn hex4_prefixed(v: u16) -> Seq<char> {
    seq!['0', 'x'] + hex4(v)
}

fn hex_char(d: u8) -> (c: char)
    requires
        d < 16,
    ensures
        c == hex_digit(d as int),
{
    if d < 10 {
        (d + 48) as char
    } else {
        (d + 87) as char
    }
}

/// Appends the decimal notation of `n`.
pub fn push_decimal(s: &mut String, n: u64)
    ensures
        final(s)@ == old(s)@ + dec(n as nat),
    decreases n,
{
    if n >= 10 {
        push_decimal(s, n / 10);
    }
    let d = (n % 10) as u8;
    s.push((d + 48) as char);
    assert(final(s)@ == old(s)@ + dec(n as nat));
}

/// Appends two hexadecimal digits of `b`.
pub fn push_hex2(s: &mut String, b: u8)
    ensures
        final(s)@ == old(s)@ + hex2(b),
{
    s.push(hex_char(b / 16));
    s.push(hex_char(b % 16));
    assert(final(s)@ =~= old(s)@ + hex2(b));
}

/// Appends four hexadecimal digits of `v`.
pub fn push_hex4(s: &mut String, v: u16)
    ensures
        final(s)@ == old(s)@ + hex4(v),
{
    s.push(hex_char((v / 4096) as u8));
    s.push(hex_char(((v / 256) % 16) as u8));
    s.push(hex_char(((v / 16) % 16) as u8));
    s.push(hex_char((v % 16) as u8));
    assert(final(s)@ =~= old(s)@ + hex4(v));
}

/// Appends a string slice.
pub fn push_str(s: &mut String, t: &str)
    ensures
        final(s)@ == old(s)@ + t@,
{
    s.append(t);
}

/// `0x{:04x}` of `v` as a new string.
pub fn hex4_string(v: u16) -> (s: String)
    ensures
        s@ == hex4_prefixed(v),
{
    let mut s = String::new();
    s.push('0');
    s.push('x');
    push_hex4(&mut s, v);
    assert(s@ =~= hex4_prefixed(v));
    s
}

/// Decimal notation of `n` as a new string.
pub fn decimal_string(n: u64) -> (s: String)
    ensures
        s@ == dec(n as nat),
{
    let mut s = String::new();
    push_decimal(&mut s, n);
    assert(s@ =~= dec(n as nat));
    s
}

} // verus!
