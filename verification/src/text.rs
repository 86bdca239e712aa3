//! The vocabulary in which emitted text is specified: indentation, lines,
//! separated lists and decimal numerals.

use vstd::prelude::*;
use vstd::string::StringExecFns;

verus! {

/// The indentation of a line nested `tabs` deep: that many tab characters.
#[verifier::opaque]
pub open spec fn indentation(tabs: nat) -> Seq<char> {
    Seq::new(tabs, |i: int| '\t')
}

/// One line at depth `tabs`: indentation, the content, a line feed.
pub open spec fn line(tabs: nat, content: Seq<char>) -> Seq<char> {
    indentation(tabs) + content + "\n"@
}

/// The parts in order, with the separator between each two neighbours.
#[verifier::opaque]
pub open spec fn joined(parts: Seq<Seq<char>>, separator: Seq<char>) -> Seq<char>
    decreases parts.len(),
{
    if parts.len() == 0 {
        Seq::empty()
    } else if parts.len() == 1 {
        parts.last()
    } else {
        joined(parts.drop_last(), separator) + separator + parts.last()
    }
}

/// The character that writes a single decimal digit.
pub open spec fn digit(value: nat) -> char
    recommends
        value < 10,
{
    if value == 0 {
        '0'
    } else if value == 1 {
        '1'
    } else if value == 2 {
        '2'
    } else if value == 3 {
        '3'
    } else if value == 4 {
        '4'
    } else if value == 5 {
        '5'
    } else if value == 6 {
        '6'
    } else if value == 7 {
        '7'
    } else if value == 8 {
        '8'
    } else {
        '9'
    }
}

/// The decimal numeral of a natural number, most significant digit first,
/// without leading zeros.
#[verifier::opaque]
pub open spec fn decimal(value: nat) -> Seq<char>
    decreases value,
{
    if value < 10 {
        seq![digit(value)]
    } else {
        decimal(value / 10).push(digit(value % 10))
    }
}

/// A separated list without parts is empty.
pub proof fn lemma_joined_empty(parts: Seq<Seq<char>>, separator: Seq<char>)
    requires
        parts.len() == 0,
    ensures
        joined(parts, separator) == Seq::<char>::empty(),
{
    reveal_with_fuel(joined, 1);
}

/// A separated list of one part is that part.
pub proof fn lemma_joined_one(parts: Seq<Seq<char>>, separator: Seq<char>)
    requires
        parts.len() == 1,
    ensures
        joined(parts, separator) == parts[0],
{
    reveal_with_fuel(joined, 1);
}

/// Extending a separated list by one more part: the first part stands
/// alone, every later one follows a separator.
pub proof fn lemma_joined_push(parts: Seq<Seq<char>>, separator: Seq<char>, part: Seq<char>)
    ensures
        joined(parts.push(part), separator) == if parts.len() == 0 {
            part
        } else {
            joined(parts, separator) + separator + part
        },
{
    reveal_with_fuel(joined, 1);
    assert(parts.push(part).drop_last() == parts);
}

/// The separated list of one more leading part: the first part stands
/// alone after the empty list, every later one follows a separator.
pub proof fn lemma_joined_next(parts: Seq<Seq<char>>, separator: Seq<char>, count: int)
    requires
        0 <= count < parts.len(),
    ensures
        count == 0 ==> joined(parts.take(0), separator) == Seq::<char>::empty() && joined(
            parts.take(1),
            separator,
        ) == parts[0],
        count > 0 ==> joined(parts.take(count + 1), separator) == joined(
            parts.take(count),
            separator,
        ) + separator + parts[count],
{
    lemma_joined_empty(parts.take(0), separator);
    lemma_joined_push(parts.take(count), separator, parts[count]);
    assert(parts.take(count).push(parts[count]) == parts.take(count + 1));
}

/// The concatenation of one more leading part appends that part.
pub proof fn lemma_flatten_next(parts: Seq<Seq<char>>, count: int)
    requires
        0 <= count < parts.len(),
    ensures
        parts.take(count + 1).flatten() == parts.take(count).flatten() + parts[count],
{
    assert(parts.take(count).push(parts[count]) == parts.take(count + 1));
    parts.take(count).lemma_flatten_push(parts[count]);
}

/// A line appended piece by piece is the line of the pieces, here four.
pub proof fn lemma_line_of_four(
    start: Seq<char>,
    tabs: nat,
    a: Seq<char>,
    b: Seq<char>,
    c: Seq<char>,
    d: Seq<char>,
)
    ensures
        start + indentation(tabs) + a + b + c + d + "\n"@ == start + line(tabs, a + b + c + d),
{
}

/// A line appended piece by piece is the line of the pieces, here six.
pub proof fn lemma_line_of_six(
    start: Seq<char>,
    tabs: nat,
    a: Seq<char>,
    b: Seq<char>,
    c: Seq<char>,
    d: Seq<char>,
    e: Seq<char>,
    f: Seq<char>,
)
    ensures
        start + indentation(tabs) + a + b + c + d + e + f + "\n"@ == start + line(
            tabs,
            a + b + c + d + e + f,
        ),
{
}

/// The one-character text of a single decimal digit.
fn digit_str(value: usize) -> (text: &'static str)
    requires
        value < 10,
    ensures
        text@ == seq![digit(value as nat)],
{
    proof {
        reveal_strlit("0");
        reveal_strlit("1");
        reveal_strlit("2");
        reveal_strlit("3");
        reveal_strlit("4");
        reveal_strlit("5");
        reveal_strlit("6");
        reveal_strlit("7");
        reveal_strlit("8");
        reveal_strlit("9");
    }
    let text = if value == 0 {
        "0"
    } else if value == 1 {
        "1"
    } else if value == 2 {
        "2"
    } else if value == 3 {
        "3"
    } else if value == 4 {
        "4"
    } else if value == 5 {
        "5"
    } else if value == 6 {
        "6"
    } else if value == 7 {
        "7"
    } else if value == 8 {
        "8"
    } else {
        "9"
    };
    assert(text@ =~= seq![digit(value as nat)]);
    text
}

/// Writes a number as its decimal numeral.
pub fn decimal_string(value: usize) -> (text: String)
    ensures
        text@ == decimal(value as nat),
    decreases value,
{
    proof {
        reveal_with_fuel(decimal, 1);
    }
    if value < 10 {
        String::from_str(digit_str(value))
    } else {
        let mut text = decimal_string(value / 10);
        text.append(digit_str(value % 10));
        text
    }
}

} // verus!
