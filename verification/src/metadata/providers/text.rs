//! Building blocks of search strings: decimal numbers and joined lists.

use vstd::prelude::*;

verus! {

/// The character that stands for a digit below ten.
pub open spec fn digit_char(d: nat) -> char
    recommends
        d < 10,
{
    if d == 0 {
        '0'
    } else if d == 1 {
        '1'
    } else if d == 2 {
        '2'
    } else if d == 3 {
        '3'
    } else if d == 4 {
        '4'
    } else if d == 5 {
        '5'
    } else if d == 6 {
        '6'
    } else if d == 7 {
        '7'
    } else if d == 8 {
        '8'
    } else {
        '9'
    }
}

/// The decimal numeral of `n`: most significant digit first, no sign, no
/// leading zero, and `"0"` for zero.
pub open spec fn decimal(n: nat) -> Seq<char>
    decreases n,
{
    if n < 10 {
        seq![digit_char(n)]
    } else {
        decimal(n / 10).push(digit_char(n % 10))
    }
}

/// The parts in order, with `sep` between each two neighbours: nothing before
/// the first part and nothing after the last.
pub open spec fn joined(parts: Seq<Seq<char>>, sep: Seq<char>) -> Seq<char>
    decreases parts.len(),
{
    if parts.len() == 0 {
        Seq::empty()
    } else if parts.len() == 1 {
        parts[0]
    } else {
        joined(parts.drop_last(), sep) + sep + parts.last()
    }
}

/// A predicate on one field: the field's name, a colon, and the value as it
/// is. Nothing in the value is escaped.
pub open spec fn term(field: Seq<char>, value: Seq<char>) -> Seq<char> {
    field + ":"@ + value
}

/// Two compiled operands under a binary operator: always in parentheses, the
/// left operand first, the operator between them.
pub open spec fn grouped(left: Seq<char>, operator: Seq<char>, right: Seq<char>) -> Seq<char> {
    "("@ + left + operator + right + ")"@
}

/// Joining one part more: the first part stands alone, and each later part
/// follows the separator.
pub proof fn lemma_joined_next(parts: Seq<Seq<char>>, sep: Seq<char>, i: int)
    requires
        0 <= i < parts.len(),
    ensures
        joined(parts.take(i + 1), sep) == if i == 0 {
            parts[0]
        } else {
            joined(parts.take(i), sep) + sep + parts[i]
        },
{
    let longer = parts.take(i + 1);
    assert(longer.last() == parts[i]);
    assert(longer.drop_last() =~= parts.take(i));
}

/// The one-character string of a digit.
pub fn digit_str(d: u32) -> (s: &'static str)
    requires
        d < 10,
    ensures
        s@ == seq![digit_char(d as nat)],
{
    proof {
        reveal_strlit("0");
        reveal_strlit("1");
        reveal_strlit("2");
        reveal_strlit("3");
        reveal_strlit("4");
        reveal_strlit("5");
        reveal_strlit("6");
        reveal_strlit("7");
        reveal_strlit("8");
        reveal_strlit("9");
    }
    let s = if d == 0 {
        "0"
    } else if d == 1 {
        "1"
    } else if d == 2 {
        "2"
    } else if d == 3 {
        "3"
    } else if d == 4 {
        "4"
    } else if d == 5 {
        "5"
    } else if d == 6 {
        "6"
    } else if d == 7 {
        "7"
    } else if d == 8 {
        "8"
    } else {
        "9"
    };
    assert(s@ =~= seq![digit_char(d as nat)]);
    s
}

/// Writes `n` as a decimal numeral.
pub fn decimal_string(n: u32) -> (s: String)
    ensures
        s@ == decimal(n as nat),
    decreases n,
{
    if n < 10 {
        String::from_str(digit_str(n))
    } else {
        let mut s = decimal_string(n / 10);
        s.append(digit_str(n % 10));
        assert(s@ =~= decimal(n as nat));
        s
    }
}

/// Writes the predicate that matches `field` against `value`.
pub fn field_term(field: &str, value: &str) -> (s: String)
    ensures
        s@ == term(field@, value@),
{
    let mut s = String::from_str(field);
    s.append(":");
    s.append(value);
    s
}

/// Writes the predicate that matches `field` against the number `n`.
pub fn number_term(field: &str, n: u32) -> (s: String)
    ensures
        s@ == term(field@, decimal(n as nat)),
{
    let value = decimal_string(n);
    field_term(field, value.as_str())
}

/// Writes two compiled operands under a binary operator.
pub fn grouped_string(left: String, operator: &str, right: String) -> (s: String)
    ensures
        s@ == grouped(left@, operator@, right@),
{
    let mut s = String::from_str("(");
    s.append(left.as_str());
    s.append(operator);
    s.append(right.as_str());
    s.append(")");
    s
}

} // verus!
