//! Natural numbers written in decimal notation.

use vstd::prelude::*;
use vstd::string::*;

verus! {

/// The ten digits, each at the index of its value.
pub open spec fn digits() -> Seq<char> {
    seq!['0', '1', '2', '3', '4', '5', '6', '7', '8', '9']
}

/// `n` in decimal notation: no sign, no separators, no leading zero except
/// for zero itself.
pub open spec fn decimal_text(n: nat) -> Seq<char>
    decreases n,
{
    if n < 10 {
        seq![digits()[n as int]]
    } else {
        decimal_text(n / 10).push(digits()[(n % 10) as int])
    }
}

/// The number that a sequence of digits denotes, read from the left.
pub open spec fn decimal_value(text: Seq<char>) -> nat
    decreases text.len(),
{
    if text.len() == 0 {
        0
    } else {
        decimal_value(text.drop_last()) * 10 + digits().index_of(text.last()) as nat
    }
}

/// Decimal notation loses nothing: it is made of digits only, starts with
/// a zero only for zero, and denotes the number it was written for.
pub proof fn lemma_decimal_text_reads_back(n: nat)
    ensures
        decimal_text(n).len() >= 1,
        forall|i: int| 0 <= i < decimal_text(n).len() ==> digits().contains(#[trigger] decimal_text(n)[i]),
        decimal_text(n)[0] == '0' <==> n == 0,
        decimal_value(decimal_text(n)) == n,
    decreases n,
{
    let last = digits()[(n % 10) as int];
    assert(digits().index_of(last) == (n % 10) as int) by {
        lemma_digit_index((n % 10) as int);
    }
    if n < 10 {
        let text = decimal_text(n);
        assert(text.drop_last() =~= Seq::<char>::empty());
        assert(decimal_value(text.drop_last()) == 0);
        assert(digits().contains(text[0])) by {
            assert(digits()[n as int] == text[0]);
        }
    } else {
        lemma_decimal_text_reads_back(n / 10);
        let front = decimal_text(n / 10);
        let text = decimal_text(n);
        assert(text.drop_last() =~= front);
        assert forall|i: int| 0 <= i < text.len() implies digits().contains(#[trigger] text[i]) by {
            if i < front.len() {
                assert(text[i] == front[i]);
            } else {
                assert(digits()[(n % 10) as int] == text[i]);
            }
        }
        assert(text[0] == front[0]);
    }
}

/// Each digit stands in `digits` at its own value and nowhere else.
proof fn lemma_digit_index(d: int)
    requires
        0 <= d < 10,
    ensures
        digits().index_of(digits()[d]) == d,
{
    let at = digits().index_of(digits()[d]);
    assert(digits().contains(digits()[d])) by {
        assert(digits()[d] == digits()[d]);
    }
    assert(0 <= at < 10 && digits()[at] == digits()[d]);
}

/// The digit of value `d`, as a string of one character.
fn digit_str(d: u32) -> (text: &'static str)
    requires
        d < 10,
    ensures
        text@ == seq![digits()[d as int]],
{
    proof {
        reveal_strlit("0");
        reveal_strlit("1");
        reveal_strlit("2");
        reveal_strlit("3");
        reveal_strlit("4");
        reveal_strlit("5");
        reveal_strlit("6");
        reveal_strlit("7");
        reveal_strlit("8");
        reveal_strlit("9");
    }
    let text = match d {
        0 => "0",
        1 => "1",
        2 => "2",
        3 => "3",
        4 => "4",
        5 => "5",
        6 => "6",
        7 => "7",
        8 => "8",
        _ => "9",
    };
    assert(text@ =~= seq![digits()[d as int]]);
    text
}

/// Writes `n` in decimal notation.
pub fn decimal(n: u32) -> (text: String)
    ensures
        text@ == decimal_text(n as nat),
    decreases n,
{
    if n < 10 {
        String::from_str(digit_str(n))
    } else {
        let mut text = decimal(n / 10);
        text.append(digit_str(n % 10));
        assert(text@ =~= decimal_text(n as nat));
        text
    }
}

} // verus!
