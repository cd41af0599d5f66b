//! Small operations on text that the rest of the library is built from.

use vstd::prelude::*;
use vstd::string::StringSliceAdditionalSpecFns;

verus! {

/// Two texts with the same UTF-8 bytes are the same text.
pub proof fn lemma_same_bytes_same_text(a: &str, b: &str)
    requires
        a.spec_bytes() == b.spec_bytes(),
    ensures
        a@ == b@,
{
    vstd::utf8::encode_utf8_decode_utf8(a@);
    vstd::utf8::encode_utf8_decode_utf8(b@);
}

/// Whether two texts are equal, character for character.
pub fn same_text(a: &str, b: &str) -> (same: bool)
    ensures
        same == (a@ == b@),
{
    let left = a.as_bytes();
    let right = b.as_bytes();
    if left.len() != right.len() {
        return false;
    }
    let mut at: usize = 0;
    while at < left.len()
        invariant
            at <= left.len(),
            left.len() == right.len(),
            left@ == a.spec_bytes(),
            right@ == b.spec_bytes(),
            forall|k: int| 0 <= k < at ==> left@[k] == right@[k],
        decreases left.len() - at,
    {
        if left[at] != right[at] {
            return false;
        }
        at += 1;
    }
    proof {
        assert(left@ =~= right@);
        lemma_same_bytes_same_text(a, b);
    }
    true
}

/// The two texts, one after the other.
pub fn join2(first: &str, second: &str) -> (joined: String)
    ensures
        joined@ == first@ + second@,
{
    let mut joined = first.to_owned();
    joined.append(second);
    joined
}

/// The characters of a text that may be missing.
pub open spec fn optional_text(value: Option<String>) -> Option<Seq<char>> {
    match value {
        Some(text) => Some(text@),
        None => None,
    }
}

/// The character sequences of a run of texts.
pub open spec fn texts(parts: Seq<String>) -> Seq<Seq<char>> {
    parts.map_values(|part: String| part@)
}

/// The parts, one after the other, with `separator` between each two.
pub open spec fn separated(parts: Seq<Seq<char>>, separator: Seq<char>) -> Seq<char>
    decreases parts.len(),
{
    if parts.len() == 0 {
        Seq::empty()
    } else if parts.len() == 1 {
        parts[0]
    } else {
        separated(parts.drop_last(), separator) + separator + parts.last()
    }
}

/// Joins the parts with `separator` between each two.
pub fn join_separated(parts: &Vec<String>, separator: &str) -> (joined: String)
    ensures
        joined@ == separated(texts(parts@), separator@),
{
    let mut joined = String::new();
    let mut at: usize = 0;
    while at < parts.len()
        invariant
            at <= parts.len(),
            joined@ == separated(texts(parts@).take(at as int), separator@),
        decreases parts.len() - at,
    {
        if at > 0 {
            joined.append(separator);
        }
        joined.append(parts[at].as_str());
        proof {
            let all = texts(parts@);
            let next = all.take(at + 1);
            assert(next.drop_last() =~= all.take(at as int));
            assert(next.last() == parts@[at as int]@);
            if at == 0 {
                assert(joined@ =~= next[0]);
            }
        }
        at += 1;
    }
    proof {
        assert(texts(parts@).take(parts@.len() as int) =~= texts(parts@));
    }
    joined
}

/// The decimal digit for a number below ten.
pub open spec fn digit_char(digit: nat) -> char {
    if digit == 0 {
        '0'
    } else if digit == 1 {
        '1'
    } else if digit == 2 {
        '2'
    } else if digit == 3 {
        '3'
    } else if digit == 4 {
        '4'
    } else if digit == 5 {
        '5'
    } else if digit == 6 {
        '6'
    } else if digit == 7 {
        '7'
    } else if digit == 8 {
        '8'
    } else {
        '9'
    }
}

/// A number in decimal digits, without sign or leading zeros.
pub open spec fn decimal(number: nat) -> Seq<char>
    decreases number,
{
    if number < 10 {
        seq![digit_char(number)]
    } else {
        decimal(number / 10).push(digit_char(number % 10))
    }
}

/// The decimal digit for a number below ten, as a text of one character.
fn digit_text(digit: u64) -> (text: &'static str)
    requires
        digit < 10,
    ensures
        text@ == seq![digit_char(digit as nat)],
{
    proof {
        reveal_strlit("0");
        reveal_strlit("1");
        reveal_strlit("2");
        reveal_strlit("3");
        reveal_strlit("4");
        reveal_strlit("5");
        reveal_strlit("6");
        reveal_strlit("7");
        reveal_strlit("8");
        reveal_strlit("9");
    }
    let text = if digit == 0 {
        "0"
    } else if digit == 1 {
        "1"
    } else if digit == 2 {
        "2"
    } else if digit == 3 {
        "3"
    } else if digit == 4 {
        "4"
    } else if digit == 5 {
        "5"
    } else if digit == 6 {
        "6"
    } else if digit == 7 {
        "7"
    } else if digit == 8 {
        "8"
    } else {
        "9"
    };
    assert(text@ =~= seq![digit_char(digit as nat)]);
    text
}

/// Writes a number in decimal digits.
pub fn decimal_text(number: u64) -> (text: String)
    ensures
        text@ == decimal(number as nat),
    decreases number,
{
    if number < 10 {
        digit_text(number).to_owned()
    } else {
        let mut text = decimal_text(number / 10);
        text.append(digit_text(number % 10));
        assert(text@ =~= decimal(number as nat));
        text
    }
}

/// A text as Rust's `Debug` formatting writes it: between double quotes, with
/// escapes.
pub uninterp spec fn debug_quoted(text: Seq<char>) -> Seq<char>;

/// Formats a text with `{:?}`. The contract claims that the result is the
/// one that [`debug_quoted`] names for the text.
#[verifier::external_body]
pub(crate) fn quote_debug(text: &str) -> (quoted: String)
    ensures
        quoted@ == debug_quoted(text@),
{
    format!("{:?}", text)
}

/// The value of a decimal digit.
pub open spec fn digit_value(c: char) -> Option<nat> {
    if '0' <= c <= '9' {
        Some((c as u32 - '0' as u32) as nat)
    } else {
        None
    }
}

/// The number that a run of decimal digits writes; none where a character
/// is no digit. The empty run writes zero.
pub open spec fn digits_number(digits: Seq<char>) -> Option<nat>
    decreases digits.len(),
{
    if digits.len() == 0 {
        Some(0)
    } else {
        match (digits_number(digits.drop_last()), digit_value(digits.last())) {
            (Some(high), Some(low)) => Some(high * 10 + low),
            _ => None,
        }
    }
}

/// The text without a plus sign in front.
pub open spec fn unsigned_part(text: Seq<char>) -> Seq<char> {
    if text.len() > 0 && text[0] == '+' {
        text.drop_first()
    } else {
        text
    }
}

/// The number that a text writes, as Rust reads an unsigned number: decimal
/// digits, at least one, with at most one plus sign in front and nothing
/// else, not even white space; and the number fits in 64 bits.
pub open spec fn parsed_u64(text: Seq<char>) -> Option<u64> {
    let digits = unsigned_part(text);
    if digits.len() == 0 {
        None
    } else {
        match digits_number(digits) {
            Some(number) => if number <= u64::MAX {
                Some(number as u64)
            } else {
                None
            },
            None => None,
        }
    }
}

/// Reads an unsigned number.
pub fn parse_u64(text: &str) -> (number: Option<u64>)
    ensures
        number == parsed_u64(text@),
{
    let mut first = true;
    let mut any_digits = false;
    let mut value: Option<u64> = Some(0);
    let ghost mut start: int = 0;
    for c in it: text.chars()
        invariant
            it.seq() == text@,
            start == (if it.index() > 0 && text@[0] == '+' {
                1int
            } else {
                0int
            }),
            first == (it.index() == 0),
            any_digits == (it.index() - start > 0),
            match value {
                Some(v) => digits_number(text@.subrange(start, it.index() as int)) == Some(v as nat),
                None => match digits_number(text@.subrange(start, it.index() as int)) {
                    Some(n) => n > u64::MAX,
                    None => true,
                },
            },
    {
        let ghost seen = it.index() as int;
        proof {
            assert(c == text@[seen]);
        }
        if first && c == '+' {
            proof {
                start = 1;
                assert(text@.subrange(1, 1) =~= Seq::<char>::empty());
            }
        } else {
            proof {
                let before = text@.subrange(start, seen);
                let after = text@.subrange(start, seen + 1);
                assert(after.drop_last() =~= before);
                assert(after.last() == c);
            }
            let digit: Option<u64> = if '0' <= c && c <= '9' {
                Some((c as u32 - '0' as u32) as u64)
            } else {
                None
            };
            value = match (value, digit) {
                (Some(high), Some(low)) => if high <= (u64::MAX - low) / 10 {
                    Some(high * 10 + low)
                } else {
                    None
                },
                _ => None,
            };
            any_digits = true;
        }
        first = false;
    }
    proof {
        assert(text@.subrange(start, text@.len() as int) =~= unsigned_part(text@));
    }
    if !any_digits {
        None
    } else {
        value
    }
}

} // verus!
