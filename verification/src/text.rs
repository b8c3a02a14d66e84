//! Text that the library composes: numbers in decimal, replaced characters,
//! suffix tests and joined lists.

use vstd::prelude::*;
use vstd::string::StringExecFns;

verus! {

/// The character of the decimal digit `d`.
pub open spec fn digit(d: nat) -> char {
    if d == 0 {
        '0'
    } else if d == 1 {
        '1'
    } else if d == 2 {
        '2'
    } else if d == 3 {
        '3'
    } else if d == 4 {
        '4'
    } else if d == 5 {
        '5'
    } else if d == 6 {
        '6'
    } else if d == 7 {
        '7'
    } else if d == 8 {
        '8'
    } else {
        '9'
    }
}

/// `n` in decimal, without leading zeros.
pub open spec fn decimal(n: nat) -> Seq<char>
    decreases n,
{
    if n < 10 {
        seq![digit(n)]
    } else {
        decimal(n / 10).push(digit(n % 10))
    }
}

/// `text` with every `from` replaced by `to`.
pub open spec fn replaced(text: Seq<char>, from: char, to: char) -> Seq<char> {
    text.map_values(
        |c: char|
            if c == from {
                to
            } else {
                c
            },
    )
}

/// The parts joined, with `separator` between each two.
pub open spec fn joined(parts: Seq<Seq<char>>, separator: Seq<char>) -> Seq<char>
    decreases parts.len(),
{
    if parts.len() == 0 {
        Seq::empty()
    } else if parts.len() == 1 {
        parts[0]
    } else {
        joined(parts.drop_last(), separator) + separator + parts.last()
    }
}

/// `n` written in decimal.
///
/// Trusted: `usize::to_string`, which writes the number in base ten without
/// sign, padding or leading zeros.
#[verifier::external_body]
pub(crate) fn decimal_string(n: usize) -> (text: String)
    ensures
        text@ == decimal(n as nat),
{
    n.to_string()
}

/// `text` with every `from` replaced by `to`.
///
/// Trusted: `str::replace` with a character as the pattern, which replaces
/// each occurrence of that character and keeps all others in place.
#[verifier::external_body]
pub(crate) fn replace_char(text: &str, from: char, to: char) -> (out: String)
    ensures
        out@ == replaced(text@, from, to),
{
    text.replace(from, &to.to_string())
}

/// Whether `text` ends with `suffix`.
///
/// Trusted: `str::ends_with` with a string as the pattern.
#[verifier::external_body]
pub(crate) fn ends_with(text: &str, suffix: &str) -> (hit: bool)
    ensures
        hit == suffix@.is_suffix_of(text@),
{
    text.ends_with(suffix)
}

/// Joins `parts`, with `separator` between each two.
pub fn join(parts: &Vec<String>, separator: &str) -> (text: String)
    ensures
        text@ == joined(parts@.map_values(|p: String| p@), separator@),
{
    let ghost views = parts@.map_values(|p: String| p@);
    let mut text = String::new();
    let mut i: usize = 0;
    while i < parts.len()
        invariant
            i <= parts.len(),
            views == parts@.map_values(|p: String| p@),
            text@ == joined(views.take(i as int), separator@),
        decreases parts.len() - i,
    {
        proof {
            let grown = views.take(i + 1);
            assert(grown.drop_last() =~= views.take(i as int));
        }
        if i > 0 {
            text.append(separator);
        }
        text.append(parts[i].as_str());
        i = i + 1;
    }
    proof {
        assert(views.take(i as int) =~= views);
    }
    text
}

} // verus!
