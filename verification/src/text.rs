//! Small text routines shared by the rest of the crate: literals as owned
//! strings, comparison against a literal, and numbers written out in decimal
//! and in fixed-width hexadecimal.
use vstd::prelude::*;

verus! {

/// An owned copy of `s`.
pub fn text(s: &str) -> (r: String)
    ensures
        r@ == s@,
{
    s.to_string()
}

/// Whether `a` reads exactly as `b`.
pub fn reads_as(a: &String, b: &str) -> (r: bool)
    ensures
        r == (a@ == b@),
{
    let owned = text(b);
    *a == owned
}

/// The texts of a list of strings, in order.
pub open spec fn texts(items: Seq<String>) -> Seq<Seq<char>> {
    Seq::new(items.len(), |i: int| items[i]@)
}

/// The character of `s` at place `i`, or a blank past its end.
pub open spec fn char_at(s: Seq<char>, i: int) -> char {
    if 0 <= i < s.len() {
        s[i]
    } else {
        ' '
    }
}

/// The length of `s` with its characters at two places. Texts with
/// different marks are different texts.
pub open spec fn mark(s: Seq<char>, a: int, b: int) -> (nat, char, char) {
    (s.len(), char_at(s, a), char_at(s, b))
}

/// The character for a digit value; values from ten to fifteen are the
/// lower-case letters `a` to `f`.
pub open spec fn digit_char(d: int) -> char {
    if d == 0 {
        '0'
    } else if d == 1 {
        '1'
    } else if d == 2 {
        '2'
    } else if d == 3 {
        '3'
    } else if d == 4 {
        '4'
    } else if d == 5 {
        '5'
    } else if d == 6 {
        '6'
    } else if d == 7 {
        '7'
    } else if d == 8 {
        '8'
    } else if d == 9 {
        '9'
    } else if d == 10 {
        'a'
    } else if d == 11 {
        'b'
    } else if d == 12 {
        'c'
    } else if d == 13 {
        'd'
    } else if d == 14 {
        'e'
    } else {
        'f'
    }
}

/// Distinct digit values below sixteen have distinct characters.
pub proof fn digit_char_injective(a: int, b: int)
    requires
        0 <= a < 16,
        0 <= b < 16,
        digit_char(a) == digit_char(b),
    ensures
        a == b,
{
}

/// The one-character text of a digit value.
pub fn digit_text(d: u8) -> (s: &'static str)
    requires
        d < 16,
    ensures
        s@ == seq![digit_char(d as int)],
{
    proof {
        reveal_strlit("0");
        reveal_strlit("1");
        reveal_strlit("2");
        reveal_strlit("3");
        reveal_strlit("4");
        reveal_strlit("5");
        reveal_strlit("6");
        reveal_strlit("7");
        reveal_strlit("8");
        reveal_strlit("9");
        reveal_strlit("a");
        reveal_strlit("b");
        reveal_strlit("c");
        reveal_strlit("d");
        reveal_strlit("e");
        reveal_strlit("f");
    }
    let s = match d {
        0 => "0",
        1 => "1",
        2 => "2",
        3 => "3",
        4 => "4",
        5 => "5",
        6 => "6",
        7 => "7",
        8 => "8",
        9 => "9",
        10 => "a",
        11 => "b",
        12 => "c",
        13 => "d",
        14 => "e",
        _ => "f",
    };
    assert(s@ =~= seq![digit_char(d as int)]);
    s
}

/// `n` in decimal, without leading zeros.
pub open spec fn decimal(n: nat) -> Seq<char>
    decreases n,
{
    if n < 10 {
        seq![digit_char(n as int)]
    } else {
        decimal(n / 10).push(digit_char((n % 10) as int))
    }
}

/// Appends `n` in decimal to `out`.
pub fn write_decimal(n: u64, out: &mut String)
    ensures
        final(out)@ == old(out)@ + decimal(n as nat),
    decreases n,
{
    if n < 10 {
        out.append(digit_text(n as u8));
    } else {
        write_decimal(n / 10, out);
        out.append(digit_text((n % 10) as u8));
        assert(out@ =~= old(out)@ + decimal(n as nat));
    }
}

/// The lowest `width` hexadecimal digits of `n`, most significant first.
pub open spec fn fixed_hex(n: nat, width: nat) -> Seq<char>
    decreases width,
{
    if width == 0 {
        Seq::empty()
    } else {
        fixed_hex(n / 16, (width - 1) as nat).push(digit_char((n % 16) as int))
    }
}

/// What is left of `n` above its lowest `width` hexadecimal digits.
pub open spec fn above_hex(n: nat, width: nat) -> nat
    decreases width,
{
    if width == 0 {
        n
    } else {
        above_hex(n / 16, (width - 1) as nat)
    }
}

/// Appends the lowest `width` hexadecimal digits of `n` to `out`.
pub fn write_fixed_hex(n: u64, width: u8, out: &mut String)
    ensures
        final(out)@ == old(out)@ + fixed_hex(n as nat, width as nat),
    decreases width,
{
    if width > 0 {
        write_fixed_hex(n / 16, width - 1, out);
        out.append(digit_text((n % 16) as u8));
        assert(out@ =~= old(out)@ + fixed_hex(n as nat, width as nat));
    } else {
        assert(out@ =~= old(out)@ + fixed_hex(n as nat, width as nat));
    }
}

/// Two numbers with the same digits in the lowest `width` places and the same
/// remainder above them are the same number.
pub proof fn fixed_hex_injective(a: nat, b: nat, width: nat)
    requires
        fixed_hex(a, width) == fixed_hex(b, width),
        above_hex(a, width) == above_hex(b, width),
    ensures
        a == b,
    decreases width,
{
    if width > 0 {
        let w = (width - 1) as nat;
        let pa = fixed_hex(a / 16, w);
        let pb = fixed_hex(b / 16, w);
        let da = digit_char((a % 16) as int);
        let db = digit_char((b % 16) as int);
        assert(pa.push(da).last() == pb.push(db).last());
        assert(pa.push(da).drop_last() =~= pa);
        assert(pb.push(db).drop_last() =~= pb);
        digit_char_injective((a % 16) as int, (b % 16) as int);
        fixed_hex_injective(a / 16, b / 16, w);
    }
}

/// Nothing of a 64-bit number is left above sixteen hexadecimal digits.
pub proof fn nothing_above_sixteen_digits(n: u64)
    ensures
        above_hex(n as nat, 16) == 0,
{
    reveal_with_fuel(above_hex, 17);
}

} // verus!
