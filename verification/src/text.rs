//! Small verified helpers on strings: decimal rendering and joins.

use vstd::prelude::*;
use vstd::string::*;

verus! {

/// The character that stands for the decimal digit `d`.
pub open spec fn digit_char(d: nat) -> char {
    if d == 0 {
        '0'
    } else if d == 1 {
        '1'
    } else if d == 2 {
        '2'
    } else if d == 3 {
        '3'
    } else if d == 4 {
        '4'
    } else if d == 5 {
        '5'
    } else if d == 6 {
        '6'
    } else if d == 7 {
        '7'
    } else if d == 8 {
        '8'
    } else {
        '9'
    }
}

/// The decimal rendering of `n`, without sign or leading zeros.
pub open spec fn decimal_digits(n: nat) -> Seq<char>
    decreases n,
{
    if n < 10 {
        seq![digit_char(n)]
    } else {
        decimal_digits(n / 10).push(digit_char(n % 10))
    }
}

/// Whether `c` is a decimal digit.
pub open spec fn is_decimal_digit(c: char) -> bool {
    c == '0' || c == '1' || c == '2' || c == '3' || c == '4' || c == '5' || c == '6' || c == '7'
        || c == '8' || c == '9'
}

/// `parts` joined by `separator`.
pub open spec fn joined(parts: Seq<Seq<char>>, separator: Seq<char>) -> Seq<char>
    decreases parts.len(),
{
    if parts.len() == 0 {
        Seq::empty()
    } else if parts.len() == 1 {
        parts[0]
    } else {
        joined(parts.drop_last(), separator) + separator + parts.last()
    }
}

/// The views of a vector of strings, element by element.
pub open spec fn views(items: Seq<String>) -> Seq<Seq<char>> {
    Seq::new(items.len(), |i: int| items[i]@)
}

/// A decimal rendering holds at least one character, and digits only.
pub proof fn lemma_decimal_digits_are_digits(n: nat)
    ensures
        decimal_digits(n).len() >= 1,
        forall|i: int|
            0 <= i < decimal_digits(n).len() ==> is_decimal_digit(#[trigger] decimal_digits(n)[i]),
    decreases n,
{
    if n >= 10 {
        lemma_decimal_digits_are_digits(n / 10);
    }
}

/// Different numbers have different decimal renderings.
pub proof fn lemma_decimal_digits_are_injective(a: nat, b: nat)
    requires
        decimal_digits(a) == decimal_digits(b),
    ensures
        a == b,
    decreases a,
{
    lemma_decimal_digits_are_digits(a / 10);
    lemma_decimal_digits_are_digits(b / 10);
    if a < 10 && b < 10 {
        assert(decimal_digits(a)[0] == digit_char(a));
        assert(decimal_digits(b)[0] == digit_char(b));
    } else if a >= 10 && b >= 10 {
        assert(decimal_digits(a).drop_last() =~= decimal_digits(a / 10));
        assert(decimal_digits(b).drop_last() =~= decimal_digits(b / 10));
        lemma_decimal_digits_are_injective(a / 10, b / 10);
        assert(decimal_digits(a).last() == digit_char(a % 10));
        assert(decimal_digits(b).last() == digit_char(b % 10));
        assert(a % 10 == b % 10);
    } else if a < 10 {
        assert(decimal_digits(a).len() == 1);
        assert(decimal_digits(b).len() == decimal_digits(b / 10).len() + 1);
    } else {
        assert(decimal_digits(b).len() == 1);
        assert(decimal_digits(a).len() == decimal_digits(a / 10).len() + 1);
    }
}

fn digit_text(d: u64) -> (r: &'static str)
    requires
        d < 10,
    ensures
        r@ == seq![digit_char(d as nat)],
{
    proof {
        reveal_strlit("0");
        reveal_strlit("1");
        reveal_strlit("2");
        reveal_strlit("3");
        reveal_strlit("4");
        reveal_strlit("5");
        reveal_strlit("6");
        reveal_strlit("7");
        reveal_strlit("8");
        reveal_strlit("9");
    }
    let r = if d == 0 {
        "0"
    } else if d == 1 {
        "1"
    } else if d == 2 {
        "2"
    } else if d == 3 {
        "3"
    } else if d == 4 {
        "4"
    } else if d == 5 {
        "5"
    } else if d == 6 {
        "6"
    } else if d == 7 {
        "7"
    } else if d == 8 {
        "8"
    } else {
        "9"
    };
    assert(r@ =~= seq![digit_char(d as nat)]);
    r
}

/// Renders `n` in decimal.
pub fn decimal(n: u64) -> (r: String)
    ensures
        r@ == decimal_digits(n as nat),
{
    let mut text = String::from_str(digit_text(n % 10));
    let mut rest: u64 = n / 10;
    assert(rest > 0 ==> decimal_digits(n as nat) =~= decimal_digits(rest as nat) + text@);
    while rest > 0
        invariant
            rest > 0 ==> decimal_digits(n as nat) == decimal_digits(rest as nat) + text@,
            rest == 0 ==> decimal_digits(n as nat) == text@,
        decreases rest,
    {
        let d: u64 = rest % 10;
        let longer = String::from_str(digit_text(d)).concat(text.as_str());
        proof {
            let next = (rest / 10) as nat;
            if rest < 10 {
                assert(decimal_digits(n as nat) =~= longer@);
            } else {
                assert(decimal_digits(rest as nat) == decimal_digits(next).push(
                    digit_char(d as nat),
                ));
                assert(decimal_digits(n as nat) =~= decimal_digits(next) + longer@);
            }
        }
        text = longer;
        rest = rest / 10;
    }
    text
}

/// Joins `parts` with `separator` between neighbours.
pub fn join(parts: &Vec<String>, separator: &str) -> (r: String)
    ensures
        r@ == joined(views(parts@), separator@),
{
    let mut out = String::new();
    let mut i: usize = 0;
    while i < parts.len()
        invariant
            i <= parts.len(),
            out@ == joined(views(parts@).take(i as int), separator@),
        decreases parts.len() - i,
    {
        proof {
            let all = views(parts@);
            assert(all.take(i + 1).drop_last() =~= all.take(i as int));
            assert(all.take(i + 1).last() == parts@[i as int]@);
        }
        if i > 0 {
            out.append(separator);
        }
        out.append(parts[i].as_str());
        proof {
            if i == 0 {
                assert(out@ =~= parts@[0]@);
            }
        }
        i = i + 1;
    }
    proof {
        assert(views(parts@).take(parts.len() as int) =~= views(parts@));
    }
    out
}

/// Whether `text` ends in the character `last`.
pub fn ends_with_char(text: &str, last: char) -> (r: bool)
    ensures
        r == (text@.len() > 0 && text@.last() == last),
{
    let n = text.unicode_len();
    n > 0 && text.get_char(n - 1) == last
}

} // verus!
