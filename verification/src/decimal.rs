//! Decimal numerals, as they stand in a line.
use vstd::prelude::*;

use crate::text;

verus! {

/// The digit for a number below ten.
pub open spec fn digit(n: nat) -> char {
    (n + '0' as nat) as char
}

/// The decimal numeral of a number, without leading zeros.
pub open spec fn decimal(n: nat) -> Seq<char>
    decreases n,
{
    if n < 10 {
        seq![digit(n)]
    } else {
        decimal(n / 10).push(digit(n % 10))
    }
}

/// Appends the decimal numeral of a number.
pub fn push_decimal(out: &mut String, n: u64)
    ensures
        final(out)@ == old(out)@ + decimal(n as nat),
    decreases n,
{
    if n >= 10 {
        push_decimal(out, n / 10);
    }
    let last: u64 = n % 10;
    let text = digit_str(last);
    out.append(text);
    assert(out@ =~= old(out)@ + decimal(n as nat));
}

/// The one-digit numeral of a number below ten.
fn digit_str(n: u64) -> (text: &'static str)
    requires
        n < 10,
    ensures
        text@ == seq![digit(n as nat)],
{
    proof {
        reveal_strlit("0");
        reveal_strlit("1");
        reveal_strlit("2");
        reveal_strlit("3");
        reveal_strlit("4");
        reveal_strlit("5");
        reveal_strlit("6");
        reveal_strlit("7");
        reveal_strlit("8");
        reveal_strlit("9");
    }
    let text = match n {
        0 => "0",
        1 => "1",
        2 => "2",
        3 => "3",
        4 => "4",
        5 => "5",
        6 => "6",
        7 => "7",
        8 => "8",
        _ => "9",
    };
    assert(text@ =~= seq![digit(n as nat)]);
    text
}

/// The decimal numeral of a number, as a string of its own.
pub fn decimal_string(n: u64) -> (text: String)
    ensures
        text@ == decimal(n as nat),
{
    let mut text = String::new();
    push_decimal(&mut text, n);
    assert(text@ =~= decimal(n as nat));
    text
}

/// A numeral is one plain token, made of digits only.
pub proof fn lemma_decimal_is_plain(n: nat)
    ensures
        text::is_plain(decimal(n)),
        forall|i: int| 0 <= i < decimal(n).len() ==> '0' <= #[trigger] decimal(n)[i] <= '9',
    decreases n,
{
    if n >= 10 {
        lemma_decimal_is_plain(n / 10);
    }
    assert forall|i: int| 0 <= i < decimal(n).len() implies text::is_plain_char(
        #[trigger] decimal(n)[i],
    ) && '0' <= decimal(n)[i] <= '9' by {
        if n >= 10 && i < decimal(n).len() - 1 {
            assert(decimal(n)[i] == decimal(n / 10)[i]);
        }
    }
}

/// A numeral is read in base ten: a number below ten is written as its digit,
/// and appending a digit to the numeral of a number that is not zero gives the
/// numeral of ten times that number plus the digit.
pub proof fn law_decimal_is_base_ten(n: nat, d: nat)
    requires
        d < 10,
    ensures
        decimal(d) == seq![(48 + d) as char],
        n > 0 ==> decimal(10 * n + d) == decimal(n).push((48 + d) as char),
{
    if n > 0 {
        assert((10 * n + d) / 10 == n && (10 * n + d) % 10 == d);
    }
}

/// Two numbers with the same numeral are the same number.
pub proof fn lemma_decimal_tells_apart(a: nat, b: nat)
    requires
        decimal(a) == decimal(b),
    ensures
        a == b,
    decreases a,
{
    lemma_decimal_is_plain(a / 10);
    lemma_decimal_is_plain(b / 10);
    let (da, db) = (decimal(a), decimal(b));
    assert(da.last() == digit(a % 10));
    assert(db.last() == digit(b % 10));
    assert(a % 10 == b % 10);
    if a >= 10 && b >= 10 {
        assert(da.drop_last() =~= decimal(a / 10));
        assert(db.drop_last() =~= decimal(b / 10));
        lemma_decimal_tells_apart(a / 10, b / 10);
    }
}

} // verus!
