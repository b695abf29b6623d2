use vstd::prelude::*;

verus! {

/// The character of the decimal digit `d`.
pub open spec fn digit_char(d: nat) -> char {
    ('0' as int + d) as char
}

/// The decimal digits of `n`, most significant first, without leading zeros
/// (zero itself is the single digit `0`).
pub open spec fn nat_decimal(n: nat) -> Seq<char>
    decreases n,
{
    if n < 10 {
        seq![digit_char(n)]
    } else {
        nat_decimal(n / 10).push(digit_char(n % 10))
    }
}

/// How an integer is written in decimal: a minus sign before negative numbers,
/// then its digits.
pub open spec fn int_decimal(i: int) -> Seq<char> {
    if i < 0 {
        seq!['-'] + nat_decimal((-i) as nat)
    } else {
        nat_decimal(i as nat)
    }
}

/// Whether `c` is one of the characters `0` to `9`.
pub open spec fn is_digit(c: char) -> bool {
    '0' as int <= c as int <= '9' as int
}

/// The number a string of decimal digits stands for, read from the left.
pub open spec fn decimal_value(s: Seq<char>) -> int
    decreases s.len(),
{
    if s.len() == 0 {
        0
    } else {
        decimal_value(s.drop_last()) * 10 + (s.last() as int - '0' as int)
    }
}

/// The decimal text of `n` is a non-empty string of digits, without a
/// leading zero unless `n` is zero, and reading it back gives `n`.
pub proof fn lemma_nat_decimal_reads_back(n: nat)
    ensures
        nat_decimal(n).len() >= 1,
        forall|i: int| 0 <= i < nat_decimal(n).len() ==> is_digit(#[trigger] nat_decimal(n)[i]),
        decimal_value(nat_decimal(n)) == n,
        n != 0 ==> nat_decimal(n)[0] != '0',
        n < 10 <==> nat_decimal(n).len() == 1,
    decreases n,
{
    if n < 10 {
        assert(digit_char(n) as int == '0' as int + n);
        assert(nat_decimal(n) =~= seq![digit_char(n)]);
        assert(nat_decimal(n).drop_last() =~= Seq::<char>::empty());
        assert(decimal_value(Seq::<char>::empty()) == 0);
    } else {
        lemma_nat_decimal_reads_back(n / 10);
        let prefix = nat_decimal(n / 10);
        assert(nat_decimal(n) == prefix.push(digit_char(n % 10)));
        assert(nat_decimal(n).drop_last() =~= prefix);
        assert(digit_char(n % 10) as int == '0' as int + n % 10);
        assert forall|i: int| 0 <= i < nat_decimal(n).len() implies is_digit(#[trigger] nat_decimal(n)[i]) by {
            if i < prefix.len() {
                assert(nat_decimal(n)[i] == prefix[i]);
            }
        }
        assert(nat_decimal(n)[0] == prefix[0]);
    }
}

/// The decimal text of an integer reads back to it: a minus sign and the
/// digits of its magnitude when it is negative, its digits otherwise.
pub proof fn lemma_int_decimal_reads_back(i: int)
    ensures
        i < 0 ==> int_decimal(i)[0] == '-' && decimal_value(int_decimal(i).drop_first()) == -i,
        i >= 0 ==> decimal_value(int_decimal(i)) == i && is_digit(int_decimal(i)[0]),
{
    if i < 0 {
        lemma_nat_decimal_reads_back((-i) as nat);
        assert(int_decimal(i).drop_first() =~= nat_decimal((-i) as nat));
    } else {
        lemma_nat_decimal_reads_back(i as nat);
    }
}

/// Appends one character to a string, through `String::push`.
#[verifier::external_body]
pub(crate) fn push_char(s: &mut String, c: char)
    ensures
        final(s)@ == old(s)@.push(c),
{
    s.push(c);
}

fn push_nat_decimal(s: &mut String, n: u64)
    ensures
        final(s)@ == old(s)@ + nat_decimal(n as nat),
    decreases n,
{
    if n >= 10 {
        push_nat_decimal(s, n / 10);
    }
    let d: u8 = (n % 10) as u8;
    let c: char = (48u8 + d) as char;
    assert(c == digit_char((n % 10) as nat));
    push_char(s, c);
    assert(s@ == old(s)@ + nat_decimal(n as nat));
}

/// Appends the decimal form of `v` to `s`.
pub fn push_decimal(s: &mut String, v: i64)
    ensures
        final(s)@ == old(s)@ + int_decimal(v as int),
{
    if v < 0 {
        push_char(s, '-');
        let magnitude: u64 = if v == i64::MIN {
            9_223_372_036_854_775_808u64
        } else {
            (-v) as u64
        };
        push_nat_decimal(s, magnitude);
    } else {
        push_nat_decimal(s, v as u64);
    }
}

} // verus!
