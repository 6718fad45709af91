use vstd::prelude::*;
use vstd::string::StringExecFns;

verus! {

/// The lower-case hexadecimal digit for `d`, which is below 16.
pub open spec fn hex_char(d: nat) -> char {
    seq!['0', '1', '2', '3', '4', '5', '6', '7', '8', '9', 'a', 'b', 'c', 'd', 'e', 'f'][d as int]
}

/// `n` in lower-case hexadecimal, without leading zeros (`0` is one digit).
pub open spec fn hex_number(n: nat) -> Seq<char>
    decreases n,
{
    if n < 16 {
        seq![hex_char(n)]
    } else {
        hex_number(n / 16).push(hex_char(n % 16))
    }
}

/// The byte `b` as two lower-case hexadecimal digits.
pub open spec fn hex_byte(b: u8) -> Seq<char> {
    seq![hex_char(b as nat / 16), hex_char(b as nat % 16)]
}

/// Appends the hexadecimal digit for `d` to `s`.
pub fn push_hex_digit(s: &mut String, d: usize)
    requires
        d < 16,
    ensures
        final(s)@ == old(s)@.push(hex_char(d as nat)),
{
    let digits = "0123456789abcdef";
    proof {
        reveal_strlit("0123456789abcdef");
    }
    let digit = digits.substring_char(d, d + 1);
    assert(digit@ =~= seq![hex_char(d as nat)]);
    s.append(digit);
}

/// Appends `n` in hexadecimal, without leading zeros, to `s`.
pub fn push_hex_number(s: &mut String, n: usize)
    ensures
        final(s)@ == old(s)@ + hex_number(n as nat),
    decreases n,
{
    if n < 16 {
        push_hex_digit(s, n);
        assert(hex_number(n as nat) =~= seq![hex_char(n as nat)]);
    } else {
        push_hex_number(s, n / 16);
        push_hex_digit(s, n % 16);
        assert(s@ =~= old(s)@ + hex_number(n as nat));
    }
}

/// Appends the byte `b` as two hexadecimal digits to `s`.
pub fn push_hex_byte(s: &mut String, b: u8)
    ensures
        final(s)@ == old(s)@ + hex_byte(b),
{
    push_hex_digit(s, (b / 16) as usize);
    push_hex_digit(s, (b % 16) as usize);
    assert(s@ =~= old(s)@ + hex_byte(b));
}

} // verus!
