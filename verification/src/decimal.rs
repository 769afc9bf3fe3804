//! Decimal text of token counts.
use vstd::prelude::*;

verus! {

/// The decimal digit character of `d` (0 to 9).
pub open spec fn digit_char(d: nat) -> char {
    (('0' as int) + d) as char
}

/// The decimal representation of `n`, without leading zeros.
pub open spec fn spec_decimal(n: nat) -> Seq<char>
    decreases n,
{
    if n < 10 {
        seq![digit_char(n)]
    } else {
        spec_decimal(n / 10).push(digit_char(n % 10))
    }
}

/// The number that a string of decimal digits denotes.
pub open spec fn spec_digits_value(s: Seq<char>) -> int
    decreases s.len(),
{
    if s.len() == 0 {
        0
    } else {
        spec_digits_value(s.drop_last()) * 10 + (s.last() as int - '0' as int)
    }
}

fn digit_text(d: u64) -> (res: &'static str)
    requires
        d < 10,
    ensures
        res@ == seq![digit_char(d as nat)],
{
    proof {
        reveal_strlit("0");
        reveal_strlit("1");
        reveal_strlit("2");
        reveal_strlit("3");
        reveal_strlit("4");
        reveal_strlit("5");
        reveal_strlit("6");
        reveal_strlit("7");
        reveal_strlit("8");
        reveal_strlit("9");
    }
    match d {
        0 => "0",
        1 => "1",
        2 => "2",
        3 => "3",
        4 => "4",
        5 => "5",
        6 => "6",
        7 => "7",
        8 => "8",
        _ => "9",
    }
}

/// Appends the decimal text of `n` to `out`.
pub fn push_decimal(out: &mut String, n: u64)
    ensures
        final(out)@ == old(out)@ + spec_decimal(n as nat),
    decreases n,
{
    if n >= 10 {
        push_decimal(out, n / 10);
    }
    out.append(digit_text(n % 10));
    proof {
        if n >= 10 {
            assert(spec_decimal(n as nat) == spec_decimal((n / 10) as nat).push(digit_char((n % 10) as nat)));
        }
    }
}

/// The decimal text of `n` (as `n.to_string()`).
pub fn decimal(n: u64) -> (res: String)
    ensures
        res@ == spec_decimal(n as nat),
{
    let mut out = String::new();
    push_decimal(&mut out, n);
    proof {
        assert(Seq::<char>::empty() + spec_decimal(n as nat) =~= spec_decimal(n as nat));
    }
    out
}

/// Decimal text is made of digits, starts with a non-zero digit unless the
/// number is 0, and reads back as the number it was made from.
pub proof fn lemma_decimal_roundtrip(n: nat)
    ensures
        spec_decimal(n).len() > 0,
        forall|i: int| 0 <= i < spec_decimal(n).len() ==> '0' <= #[trigger] spec_decimal(n)[i] <= '9',
        n > 0 ==> spec_decimal(n)[0] != '0',
        spec_digits_value(spec_decimal(n)) == n,
    decreases n,
{
    if n >= 10 {
        lemma_decimal_roundtrip(n / 10);
        let s = spec_decimal(n);
        assert(s.drop_last() =~= spec_decimal(n / 10));
        assert(s[0] == spec_decimal(n / 10)[0]);
        assert(digit_char(n % 10) as int == '0' as int + n % 10);
        assert((n / 10) * 10 + n % 10 == n);
        assert(s.last() == digit_char(n % 10));
        assert(spec_digits_value(s) == spec_digits_value(s.drop_last()) * 10 + (s.last() as int - '0' as int));
    } else {
        let s = spec_decimal(n);
        assert(digit_char(n) as int == '0' as int + n);
        assert(s.drop_last() =~= Seq::<char>::empty());
        assert(spec_digits_value(s) == spec_digits_value(s.drop_last()) * 10 + (s.last() as int - '0' as int));
    }
}

} // verus!
