//! Building blocks for report text: decimal numerals, truth values and
//! joined lists, each with the character sequence it produces.

use vstd::prelude::*;

verus! {

/// The character that writes the decimal digit `d`.
pub open spec fn digit_char(d: nat) -> char
    recommends
        d < 10,
{
    seq!['0', '1', '2', '3', '4', '5', '6', '7', '8', '9'][d as int]
}

/// The decimal numeral of `n`: most significant digit first, no leading
/// zeros, and `"0"` for zero.
pub open spec fn decimal(n: nat) -> Seq<char>
    decreases n,
{
    if n < 10 {
        seq![digit_char(n)]
    } else {
        decimal(n / 10).push(digit_char(n % 10))
    }
}

/// The digit that the character `c` writes.
pub open spec fn digit_value(c: char) -> int {
    c as u32 - '0' as u32
}

/// The number that the decimal digits `digits` write.
pub open spec fn numeral_value(digits: Seq<char>) -> int
    decreases digits.len(),
{
    if digits.len() == 0 {
        0
    } else {
        numeral_value(digits.drop_last()) * 10 + digit_value(digits.last())
    }
}

/// A decimal numeral reads back as its number: it is made of digits alone,
/// it has a leading zero only where it is `"0"`, and the digits write `n`.
pub proof fn decimal_reads_back(n: nat)
    ensures
        decimal(n).len() >= 1,
        forall|i: int| 0 <= i < decimal(n).len() ==> 0 <= digit_value(#[trigger] decimal(n)[i]) <= 9,
        decimal(n)[0] == '0' <==> n == 0,
        numeral_value(decimal(n)) == n,
    decreases n,
{
    if n < 10 {
        assert(decimal(n).drop_last() =~= Seq::<char>::empty());
        assert(numeral_value(decimal(n)) == numeral_value(decimal(n).drop_last()) * 10
            + digit_value(decimal(n).last()));
    } else {
        decimal_reads_back(n / 10);
        assert(decimal(n).drop_last() =~= decimal(n / 10));
        assert(decimal(n)[0] == decimal(n / 10)[0]);
    }
}

/// The decimal numeral of a signed number: a minus sign before the numeral of
/// the magnitude when negative.
pub open spec fn signed_decimal(i: int) -> Seq<char> {
    if i < 0 {
        seq!['-'] + decimal((-i) as nat)
    } else {
        decimal(i as nat)
    }
}

/// How a truth value is written.
pub open spec fn truth_text(b: bool) -> Seq<char> {
    if b {
        seq!['t', 'r', 'u', 'e']
    } else {
        seq!['f', 'a', 'l', 's', 'e']
    }
}

/// `parts` written one after another with `sep` between neighbours.
pub open spec fn joined(parts: Seq<Seq<char>>, sep: Seq<char>) -> Seq<char>
    decreases parts.len(),
{
    if parts.len() == 0 {
        Seq::empty()
    } else if parts.len() == 1 {
        parts[0]
    } else {
        joined(parts.drop_last(), sep) + sep + parts.last()
    }
}

/// The line that shows `value` behind `label`.
pub fn labelled(label: &str, value: &str) -> (line: String)
    ensures
        line@ == label@ + value@,
{
    let mut line = String::from_str(label);
    line.append(value);
    line
}

fn digit_str(d: u64) -> (s: &'static str)
    requires
        d < 10,
    ensures
        s@ == seq![digit_char(d as nat)],
{
    proof {
        reveal_strlit("0");
        reveal_strlit("1");
        reveal_strlit("2");
        reveal_strlit("3");
        reveal_strlit("4");
        reveal_strlit("5");
        reveal_strlit("6");
        reveal_strlit("7");
        reveal_strlit("8");
        reveal_strlit("9");
    }
    let s = if d == 0 {
        "0"
    } else if d == 1 {
        "1"
    } else if d == 2 {
        "2"
    } else if d == 3 {
        "3"
    } else if d == 4 {
        "4"
    } else if d == 5 {
        "5"
    } else if d == 6 {
        "6"
    } else if d == 7 {
        "7"
    } else if d == 8 {
        "8"
    } else {
        "9"
    };
    assert(s@ =~= seq![digit_char(d as nat)]);
    s
}

/// Appends the decimal numeral of `n` to `out`.
pub fn push_decimal(out: &mut String, n: u64)
    ensures
        final(out)@ == old(out)@ + decimal(n as nat),
    decreases n,
{
    if n >= 10 {
        push_decimal(out, n / 10);
    }
    out.append(digit_str(n % 10));
    assert(out@ =~= old(out)@ + decimal(n as nat));
}

/// Appends the decimal numeral of the signed number `i` to `out`.
pub fn push_signed_decimal(out: &mut String, i: i64)
    ensures
        final(out)@ == old(out)@ + signed_decimal(i as int),
{
    if i < 0 {
        proof {
            reveal_strlit("-");
        }
        out.append("-");
        let magnitude: u64 = if i == i64::MIN {
            9223372036854775808u64
        } else {
            (-i) as u64
        };
        push_decimal(out, magnitude);
        assert(out@ =~= old(out)@ + signed_decimal(i as int));
    } else {
        push_decimal(out, i as u64);
    }
}

/// Appends `true` or `false` to `out`.
pub fn push_truth(out: &mut String, b: bool)
    ensures
        final(out)@ == old(out)@ + truth_text(b),
{
    proof {
        reveal_strlit("true");
        reveal_strlit("false");
    }
    if b {
        out.append("true");
        assert(out@ =~= old(out)@ + truth_text(b));
    } else {
        out.append("false");
        assert(out@ =~= old(out)@ + truth_text(b));
    }
}

/// Appends the strings of `parts`, separated by `sep`, to `out`.
pub fn push_joined(out: &mut String, parts: &Vec<String>, sep: &str)
    ensures
        final(out)@ == old(out)@ + joined(parts.deep_view(), sep@),
{
    let mut i: usize = 0;
    while i < parts.len()
        invariant
            i <= parts.len(),
            out@ == old(out)@ + joined(parts.deep_view().take(i as int), sep@),
        decreases parts.len() - i,
    {
        let ghost before = parts.deep_view().take(i as int);
        let ghost after = parts.deep_view().take(i + 1);
        assert(after.drop_last() =~= before);
        assert(after.last() == parts@[i as int]@);
        if i > 0 {
            out.append(sep);
        }
        out.append(parts[i].as_str());
        assert(out@ =~= old(out)@ + joined(after, sep@));
        i += 1;
    }
    assert(parts.deep_view().take(parts.len() as int) =~= parts.deep_view());
}

/// The line that shows the count `n` behind `label`, followed by `unit`.
pub fn count_line(label: &str, n: u64, unit: &str) -> (line: String)
    ensures
        line@ == label@ + decimal(n as nat) + unit@,
{
    let mut line = String::from_str(label);
    push_decimal(&mut line, n);
    line.append(unit);
    line
}

/// The line that shows the signed number `i` behind `label`, followed by
/// `unit`.
pub fn signed_line(label: &str, i: i64, unit: &str) -> (line: String)
    ensures
        line@ == label@ + signed_decimal(i as int) + unit@,
{
    let mut line = String::from_str(label);
    push_signed_decimal(&mut line, i);
    line.append(unit);
    line
}

/// The line that shows the truth value `b` behind `label`.
pub fn truth_line(label: &str, b: bool) -> (line: String)
    ensures
        line@ == label@ + truth_text(b),
{
    let mut line = String::from_str(label);
    push_truth(&mut line, b);
    line
}

/// The line that shows the reading `value` behind `label`, followed by
/// `unit`.
pub fn reading_line(label: &str, value: &str, unit: &str) -> (line: String)
    ensures
        line@ == label@ + value@ + unit@,
{
    let mut line = String::from_str(label);
    line.append(value);
    line.append(unit);
    line
}

/// The line that lists `items` behind `label`, separated by commas.
pub fn list_line(label: &str, items: &Vec<String>) -> (line: String)
    ensures
        line@ == label@ + joined(items.deep_view(), ", "@),
{
    let mut line = String::from_str(label);
    push_joined(&mut line, items, ", ");
    line
}

} // verus!
