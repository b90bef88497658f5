//! Integers as decimal text.

use vstd::prelude::*;
use vstd::string::*;

verus! {

/// The character of a digit below ten.
pub open spec fn digit(n: nat) -> char {
    (48 + n) as char
}

/// The decimal digits of a natural number, without leading zeros.
pub open spec fn digits(n: nat) -> Seq<char>
    decreases n,
{
    if n < 10 {
        seq![digit(n)]
    } else {
        digits(n / 10).push(digit(n % 10))
    }
}

/// The decimal text of an integer: its digits, after a minus sign where it is negative.
pub open spec fn decimal(n: int) -> Seq<char> {
    if n < 0 {
        seq!['-'] + digits((-n) as nat)
    } else {
        digits(n as nat)
    }
}

fn digit_text(n: u8) -> (res: &'static str)
    requires
        n < 10,
    ensures
        res@ == seq![digit(n as nat)],
{
    proof {
        reveal_strlit("0");
        reveal_strlit("1");
        reveal_strlit("2");
        reveal_strlit("3");
        reveal_strlit("4");
        reveal_strlit("5");
        reveal_strlit("6");
        reveal_strlit("7");
        reveal_strlit("8");
        reveal_strlit("9");
    }
    let res: &'static str = match n {
        0 => "0",
        1 => "1",
        2 => "2",
        3 => "3",
        4 => "4",
        5 => "5",
        6 => "6",
        7 => "7",
        8 => "8",
        _ => "9",
    };
    assert(res@ =~= seq![digit(n as nat)]);
    res
}

fn natural_to_text(n: u128) -> (res: String)
    ensures
        res@ == digits(n as nat),
    decreases n,
{
    if n < 10 {
        digit_text(n as u8).to_owned()
    } else {
        let mut res = natural_to_text(n / 10);
        res.append(digit_text((n % 10) as u8));
        assert(res@ =~= digits(n as nat));
        res
    }
}

/// The decimal text of a natural number.
pub fn unsigned_text(n: u64) -> (res: String)
    ensures
        res@ == decimal(n as int),
{
    natural_to_text(n as u128)
}

/// The decimal text of an integer that is the difference of two 64-bit integers.
pub fn signed_text(n: i128) -> (res: String)
    requires
        n > i128::MIN,
    ensures
        res@ == decimal(n as int),
{
    if n < 0 {
        proof {
            reveal_strlit("-");
        }
        let mut res = "-".to_owned();
        let rest = natural_to_text((-n) as u128);
        res.append(rest.as_str());
        assert(res@ =~= decimal(n as int));
        res
    } else {
        natural_to_text(n as u128)
    }
}

/// The number that a row of digits says, read from the left.
pub open spec fn value(text: Seq<char>) -> int
    decreases text.len(),
{
    if text.len() == 0 {
        0
    } else {
        10 * value(text.drop_last()) + (text.last() as int - 48)
    }
}

/// The digits of a number read back as that number. They are the characters `0` to `9`, at least
/// one, and a zero stands in front only where it stands alone.
pub proof fn lemma_digits_read_back(n: nat)
    ensures
        value(digits(n)) == n,
        digits(n).len() > 0,
        forall|i: int| 0 <= i < digits(n).len() ==> '0' <= #[trigger] digits(n)[i] <= '9',
        n > 0 ==> digits(n)[0] != '0',
        n == 0 ==> digits(n).len() == 1,
    decreases n,
{
    if n < 10 {
        let text = digits(n);
        assert(text.drop_last() =~= Seq::<char>::empty());
        assert(value(text.drop_last()) == 0);
        assert(text.last() as int == 48 + n);
    } else {
        lemma_digits_read_back(n / 10);
        let text = digits(n);
        assert(text.drop_last() =~= digits(n / 10));
        assert(text.last() as int == 48 + n % 10);
        assert(text[0] == digits(n / 10)[0]);
        assert forall|i: int| 0 <= i < text.len() implies '0' <= #[trigger] text[i] <= '9' by {
            if i < text.len() - 1 {
                assert(text[i] == digits(n / 10)[i]);
            }
        }
    }
}

/// The text of an integer reads back: a minus sign stands in front exactly of a negative one, and
/// the digits say how far it is from zero.
pub proof fn lemma_decimal_reads_back(n: int)
    ensures
        n < 0 <==> decimal(n)[0] == '-',
        n >= 0 ==> value(decimal(n)) == n,
        n < 0 ==> value(decimal(n).subrange(1, decimal(n).len() as int)) == -n,
        n < 0 ==> decimal(n) == seq!['-'] + decimal(-n),
        n >= 0 ==> decimal(n) == digits(n as nat),
{
    if n < 0 {
        lemma_digits_read_back((-n) as nat);
        assert(decimal(n).subrange(1, decimal(n).len() as int) =~= digits((-n) as nat));
    } else {
        lemma_digits_read_back(n as nat);
        assert('0' <= digits(n as nat)[0] <= '9');
    }
}

} // verus!
