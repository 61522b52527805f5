use vstd::prelude::*;

verus! {

/// The decimal digit character for a value below ten.
pub open spec fn spec_digit_char(d: nat) -> char
    recommends
        d < 10,
{
    if d == 0 {
        '0'
    } else if d == 1 {
        '1'
    } else if d == 2 {
        '2'
    } else if d == 3 {
        '3'
    } else if d == 4 {
        '4'
    } else if d == 5 {
        '5'
    } else if d == 6 {
        '6'
    } else if d == 7 {
        '7'
    } else if d == 8 {
        '8'
    } else {
        '9'
    }
}

/// The numeric value that a decimal digit character denotes.
pub open spec fn spec_digit_val(c: char) -> nat {
    if c == '0' {
        0
    } else if c == '1' {
        1
    } else if c == '2' {
        2
    } else if c == '3' {
        3
    } else if c == '4' {
        4
    } else if c == '5' {
        5
    } else if c == '6' {
        6
    } else if c == '7' {
        7
    } else if c == '8' {
        8
    } else {
        9
    }
}

/// The decimal rendering of a natural number, most significant digit first,
/// with no leading zeros (zero itself reads `0`).
pub open spec fn spec_decimal(n: nat) -> Seq<char>
    decreases n,
{
    if n < 10 {
        seq![spec_digit_char(n)]
    } else {
        spec_decimal(n / 10) + seq![spec_digit_char(n % 10)]
    }
}

/// The numeric value that a sequence of decimal digit characters denotes.
pub open spec fn spec_parse_decimal(s: Seq<char>) -> nat
    decreases s.len(),
{
    if s.len() == 0 {
        0
    } else {
        spec_parse_decimal(s.drop_last()) * 10 + spec_digit_val(s.last())
    }
}

fn digit_str(d: u8) -> (s: &'static str)
    requires
        d < 10,
    ensures
        s@ == seq![spec_digit_char(d as nat)],
{
    let s: &'static str = match d {
        0 => "0",
        1 => "1",
        2 => "2",
        3 => "3",
        4 => "4",
        5 => "5",
        6 => "6",
        7 => "7",
        8 => "8",
        _ => "9",
    };
    proof {
        reveal_strlit("0");
        reveal_strlit("1");
        reveal_strlit("2");
        reveal_strlit("3");
        reveal_strlit("4");
        reveal_strlit("5");
        reveal_strlit("6");
        reveal_strlit("7");
        reveal_strlit("8");
        reveal_strlit("9");
        assert(s@ =~= seq![spec_digit_char(d as nat)]);
    }
    s
}

/// Renders a byte's value in decimal.
pub fn u8_decimal(n: u8) -> (s: String)
    ensures
        s@ == spec_decimal(n as nat),
    decreases n,
{
    if n < 10 {
        String::from_str(digit_str(n))
    } else {
        let mut s = u8_decimal(n / 10);
        s.append(digit_str(n % 10));
        s
    }
}

/// A decimal rendering parses back to the value it was rendered from.
pub proof fn lemma_decimal_round_trip(n: nat)
    ensures
        spec_parse_decimal(spec_decimal(n)) == n,
    decreases n,
{
    if n < 10 {
        let s = spec_decimal(n);
        assert(s.drop_last() =~= Seq::<char>::empty());
        assert(spec_parse_decimal(Seq::<char>::empty()) == 0);
        assert(spec_digit_val(spec_digit_char(n)) == n);
    } else {
        lemma_decimal_round_trip(n / 10);
        let a = spec_decimal(n / 10);
        let d = n % 10;
        let b = seq![spec_digit_char(d)];
        assert((a + b).drop_last() =~= a);
        assert((a + b).last() == spec_digit_char(d));
        assert(spec_digit_val(spec_digit_char(d)) == d);
        assert(spec_parse_decimal(a + b) == spec_parse_decimal(a) * 10 + d);
        assert(n / 10 * 10 + n % 10 == n) by (nonlinear_arith);
    }
}

} // verus!
