//! Rendering of numbers and of quoted, separated fields.

use vstd::prelude::*;

verus! {

/// The character that shows the decimal digit `d`.
pub open spec fn digit_char(d: nat) -> char {
    if d == 0 {
        '0'
    } else if d == 1 {
        '1'
    } else if d == 2 {
        '2'
    } else if d == 3 {
        '3'
    } else if d == 4 {
        '4'
    } else if d == 5 {
        '5'
    } else if d == 6 {
        '6'
    } else if d == 7 {
        '7'
    } else if d == 8 {
        '8'
    } else {
        '9'
    }
}

/// The decimal numeral of `n`: no sign, no leading zero, `"0"` for zero.
pub open spec fn decimal(n: nat) -> Seq<char>
    decreases n,
{
    if n < 10 {
        seq![digit_char(n)]
    } else {
        decimal(n / 10).push(digit_char(n % 10))
    }
}

/// The one-character string of a decimal digit.
fn digit_str(d: u64) -> (s: &'static str)
    requires
        d < 10,
    ensures
        s@ == seq![digit_char(d as nat)],
{
    proof {
        reveal_strlit("0");
        reveal_strlit("1");
        reveal_strlit("2");
        reveal_strlit("3");
        reveal_strlit("4");
        reveal_strlit("5");
        reveal_strlit("6");
        reveal_strlit("7");
        reveal_strlit("8");
        reveal_strlit("9");
    }
    let s = if d == 0 {
        "0"
    } else if d == 1 {
        "1"
    } else if d == 2 {
        "2"
    } else if d == 3 {
        "3"
    } else if d == 4 {
        "4"
    } else if d == 5 {
        "5"
    } else if d == 6 {
        "6"
    } else if d == 7 {
        "7"
    } else if d == 8 {
        "8"
    } else {
        "9"
    };
    s
}

/// Renders `n` as a plain decimal string.
pub fn u64_to_decimal(n: u64) -> (s: String)
    ensures
        s@ == decimal(n as nat),
    decreases n,
{
    if n < 10 {
        String::from_str(digit_str(n))
    } else {
        let mut s = u64_to_decimal(n / 10);
        s.append(digit_str(n % 10));
        s
    }
}

/// The characters of each string of `strings`.
pub open spec fn texts(strings: Seq<String>) -> Seq<Seq<char>> {
    Seq::new(strings.len(), |i: int| strings[i]@)
}

/// The quote character that wraps every field.
pub const QUOTE: char = '"';

/// A field between two quote characters. Nothing inside the field is
/// escaped: a quote or a separator in it stays as it is.
pub open spec fn quoted(field: Seq<char>) -> Seq<char> {
    seq![QUOTE] + field + seq![QUOTE]
}

/// The fields, each quoted, with `sep` between two neighbours.
pub open spec fn join_quoted(fields: Seq<Seq<char>>, sep: Seq<char>) -> Seq<char>
    decreases fields.len(),
{
    if fields.len() == 0 {
        Seq::empty()
    } else if fields.len() == 1 {
        quoted(fields[0])
    } else {
        join_quoted(fields.drop_last(), sep) + sep + quoted(fields.last())
    }
}

/// Renders the fields as one line: see `join_quoted`.
pub fn join_quoted_fields(fields: &Vec<String>, sep: &str) -> (line: String)
    ensures
        line@ == join_quoted(texts(fields@), sep@),
{
    let mut line = String::new();
    let mut i: usize = 0;
    while i < fields.len()
        invariant
            i <= fields@.len(),
            line@ == join_quoted(texts(fields@).take(i as int), sep@),
        decreases fields@.len() - i,
    {
        proof {
            reveal_strlit("\"");
            assert(texts(fields@).take(i + 1).drop_last() =~= texts(fields@).take(i as int));
        }
        if i > 0 {
            line.append(sep);
        }
        line.append("\"");
        line.append(fields[i].as_str());
        line.append("\"");
        i = i + 1;
    }
    assert(texts(fields@).take(i as int) =~= texts(fields@));
    line
}

} // verus!
