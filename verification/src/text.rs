//! Decimal text of integers.
use vstd::prelude::*;
use vstd::string::*;

verus! {

/// The character of a decimal digit.
pub open spec fn digit_char(d: nat) -> char {
    if d == 0 { '0' }
    else if d == 1 { '1' }
    else if d == 2 { '2' }
    else if d == 3 { '3' }
    else if d == 4 { '4' }
    else if d == 5 { '5' }
    else if d == 6 { '6' }
    else if d == 7 { '7' }
    else if d == 8 { '8' }
    else { '9' }
}

/// Decimal digits of a natural number, most significant first, no leading zero.
pub open spec fn nat_decimal(n: nat) -> Seq<char>
    decreases n,
{
    if n < 10 {
        seq![digit_char(n)]
    } else {
        nat_decimal(n / 10) + seq![digit_char(n % 10)]
    }
}

/// Decimal text of an integer: a minus sign before the digits of a negative one.
pub open spec fn int_decimal(n: int) -> Seq<char> {
    if n < 0 {
        seq!['-'] + nat_decimal((-n) as nat)
    } else {
        nat_decimal(n as nat)
    }
}

/// The number that a string of decimal digits stands for, read from the
/// character codes: each character counts for its code minus the code of '0'.
pub open spec fn digits_value(s: Seq<char>) -> int
    decreases s.len(),
{
    if s.len() == 0 {
        0
    } else {
        digits_value(s.drop_last()) * 10 + (s.last() as int - 48)
    }
}

/// The number that a decimal text stands for: an optional minus sign, then digits.
pub open spec fn decimal_value(s: Seq<char>) -> int {
    if s.len() > 0 && s[0] == '-' {
        -digits_value(s.drop_first())
    } else {
        digits_value(s)
    }
}

/// `c` is one of the characters '0' to '9'.
pub open spec fn is_digit(c: char) -> bool {
    48 <= c as int <= 57
}

/// Each digit d is written as the character whose code is that of '0' plus d,
/// so the ten digits are written as ten distinct characters.
pub proof fn lemma_digit_char_code(d: nat)
    requires
        d < 10,
    ensures
        digit_char(d) as int == 48 + d,
        is_digit(digit_char(d)),
{
}

/// The decimal text of a natural number is a non-empty string of digits,
/// without a leading zero, that reads back as the number.
pub proof fn lemma_nat_decimal_reads_back(n: nat)
    ensures
        nat_decimal(n).len() > 0,
        forall|i: int| 0 <= i < nat_decimal(n).len() ==> is_digit(#[trigger] nat_decimal(n)[i]),
        digits_value(nat_decimal(n)) == n,
        nat_decimal(n).len() > 1 ==> nat_decimal(n)[0] != '0',
    decreases n,
{
    if n < 10 {
        lemma_digit_char_code(n);
        assert(nat_decimal(n).drop_last() =~= Seq::<char>::empty());
        assert(digits_value(Seq::<char>::empty()) == 0);
        assert(digits_value(nat_decimal(n)) == 0 * 10 + (nat_decimal(n).last() as int - 48));
    } else {
        lemma_nat_decimal_reads_back(n / 10);
        lemma_digit_char_code(n % 10);
        let prefix = nat_decimal(n / 10);
        let s = nat_decimal(n);
        assert(s == prefix + seq![digit_char(n % 10)]);
        assert(s.drop_last() =~= prefix);
        assert(s.last() == digit_char(n % 10));
        assert(digits_value(s) == digits_value(prefix) * 10 + (s.last() as int - 48));
        assert((n / 10) * 10 + n % 10 == n);
        assert(s[0] == prefix[0]);
        assert forall|i: int| 0 <= i < s.len() implies is_digit(#[trigger] s[i]) by {
            if i < prefix.len() {
                assert(s[i] == prefix[i]);
            }
        }
        if prefix.len() == 1 {
            assert(digits_value(prefix.drop_last()) == 0) by {
                assert(prefix.drop_last() =~= Seq::<char>::empty());
            }
            assert(prefix[0] as int - 48 == n / 10);
        }
    }
}

/// The decimal text of any integer reads back as that integer: a minus sign
/// exactly for negative numbers, then the digits of its magnitude.
pub proof fn lemma_int_decimal_reads_back(n: int)
    ensures
        decimal_value(int_decimal(n)) == n,
        (int_decimal(n)[0] == '-') <==> n < 0,
        n >= 0 ==> forall|i: int| 0 <= i < int_decimal(n).len() ==> is_digit(#[trigger] int_decimal(n)[i]),
{
    if n < 0 {
        let m = (-n) as nat;
        lemma_nat_decimal_reads_back(m);
        assert((seq!['-'] + nat_decimal(m)).drop_first() =~= nat_decimal(m));
    } else {
        lemma_nat_decimal_reads_back(n as nat);
        assert(is_digit(nat_decimal(n as nat)[0]));
    }
}

fn digit_str(d: u32) -> (s: &'static str)
    requires
        d < 10,
    ensures
        s@ == seq![digit_char(d as nat)],
{
    if d == 0 {
        proof { reveal_strlit("0"); }
        "0"
    } else if d == 1 {
        proof { reveal_strlit("1"); }
        "1"
    } else if d == 2 {
        proof { reveal_strlit("2"); }
        "2"
    } else if d == 3 {
        proof { reveal_strlit("3"); }
        "3"
    } else if d == 4 {
        proof { reveal_strlit("4"); }
        "4"
    } else if d == 5 {
        proof { reveal_strlit("5"); }
        "5"
    } else if d == 6 {
        proof { reveal_strlit("6"); }
        "6"
    } else if d == 7 {
        proof { reveal_strlit("7"); }
        "7"
    } else if d == 8 {
        proof { reveal_strlit("8"); }
        "8"
    } else {
        proof { reveal_strlit("9"); }
        "9"
    }
}

fn append_nat_decimal(s: &mut String, n: u32)
    ensures
        final(s)@ == old(s)@ + nat_decimal(n as nat),
    decreases n,
{
    if n >= 10 {
        append_nat_decimal(s, n / 10);
        s.append(digit_str(n % 10));
        assert(final(s)@ == old(s)@ + nat_decimal(n as nat)) by {
            assert(nat_decimal(n as nat) == nat_decimal((n / 10) as nat) + seq![digit_char((n % 10) as nat)]);
        }
    } else {
        s.append(digit_str(n));
    }
}

/// Appends the decimal text of `n` to `s`.
pub fn append_i32(s: &mut String, n: i32)
    ensures
        final(s)@ == old(s)@ + int_decimal(n as int),
{
    if n < 0 {
        s.append("-");
        let magnitude: u32 = if n == i32::MIN { 2147483648u32 } else { (-n) as u32 };
        proof { reveal_strlit("-"); }
        append_nat_decimal(s, magnitude);
    } else {
        append_nat_decimal(s, n as u32);
    }
}

/// The decimal text of `n`, as `format!("{}", n)` writes it.
pub fn format_i32(n: i32) -> (s: String)
    ensures
        s@ == int_decimal(n as int),
        decimal_value(s@) == n,
{
    proof { lemma_int_decimal_reads_back(n as int); }
    let mut s = String::new();
    append_i32(&mut s, n);
    s
}

} // verus!
