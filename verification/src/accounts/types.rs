//! The number of an account.

use crate::error::{viewed, Error, ErrorView};
use std::str::FromStr;
use vstd::prelude::*;

verus! {

/// Whether a character is white space, as Unicode's `White_Space` property
/// has it.
pub open spec fn is_white_space(c: char) -> bool {
    let code = c as u32;
    (0x09 <= code <= 0x0D) || code == 0x20 || code == 0x85 || code == 0xA0 || code == 0x1680 || (
    0x2000 <= code <= 0x200A) || code == 0x2028 || code == 0x2029 || code == 0x202F || code
        == 0x205F || code == 0x3000
}

/// Whether a text is empty or holds white space only.
pub open spec fn is_blank(text: Seq<char>) -> bool {
    forall|i: int| 0 <= i < text.len() ==> is_white_space(#[trigger] text[i])
}

/// Whether the low byte of a character's code is that of a printable ASCII
/// character, space included.
pub open spec fn is_printable(c: char) -> bool {
    0x20 <= (c as u32) % 256 < 0x7F
}

/// Whether a text can be an account number: it is not blank, and at least
/// one of its characters is printable.
pub open spec fn is_account_number(text: Seq<char>) -> bool {
    !is_blank(text) && exists|i: int| 0 <= i < text.len() && is_printable(#[trigger] text[i])
}

/// The account number that a text writes: the text itself where it can be
/// one, and an `AccountIdParseError` with the text where it cannot.
pub open spec fn account_number_in(text: Seq<char>) -> Result<Seq<char>, ErrorView> {
    if is_account_number(text) {
        Ok(text)
    } else {
        Err(ErrorView::AccountIdParseError(text))
    }
}

/// Whether a character is white space.
pub fn white_space(c: char) -> (white: bool)
    ensures
        white == is_white_space(c),
{
    let code = c as u32;
    (0x09 <= code && code <= 0x0D) || code == 0x20 || code == 0x85 || code == 0xA0 || code
        == 0x1680 || (0x2000 <= code && code <= 0x200A) || code == 0x2028 || code == 0x2029
        || code == 0x202F || code == 0x205F || code == 0x3000
}

/// The number of an account. It is never blank.
#[derive(Debug)]
pub struct AccountNumber(String);

impl View for AccountNumber {
    type V = Seq<char>;

    closed spec fn view(&self) -> Seq<char> {
        self.0@
    }
}

impl AccountNumber {
    /// Reads an account number. A text that is blank, or that holds no
    /// printable character, is handed back in an `AccountIdParseError`.
    pub fn parse(s: &str) -> (result: Result<AccountNumber, Error>)
        ensures
            viewed(result) == account_number_in(s@),
    {
        let mut blank = true;
        let mut printable = false;
        for c in it: s.chars()
            invariant
                it.seq() == s@,
                blank == is_blank(s@.take(it.index() as int)),
                printable == exists|i: int|
                    0 <= i < it.index() && is_printable(#[trigger] s@[i]),
        {
            proof {
                let seen = it.index() as int;
                assert(c == s@[seen]);
                assert(s@.take(seen + 1) =~= s@.take(seen).push(c));
                assert(is_blank(s@.take(seen + 1)) == (is_blank(s@.take(seen)) && is_white_space(
                    c,
                ))) by {
                    if is_blank(s@.take(seen)) && is_white_space(c) {
                        assert forall|i: int| 0 <= i < seen + 1 implies is_white_space(
                            #[trigger] s@.take(seen + 1)[i],
                        ) by {
                            if i < seen {
                                assert(s@.take(seen + 1)[i] == s@.take(seen)[i]);
                            }
                        }
                    }
                    if is_blank(s@.take(seen + 1)) {
                        assert(s@.take(seen + 1)[seen] == c);
                        assert forall|i: int| 0 <= i < seen implies is_white_space(
                            #[trigger] s@.take(seen)[i],
                        ) by {
                            assert(s@.take(seen + 1)[i] == s@.take(seen)[i]);
                        }
                    }
                }
            }
            if !white_space(c) {
                blank = false;
            }
            let low = (c as u32) % 256;
            if 0x20 <= low && low < 0x7F {
                printable = true;
            }
        }
        proof {
            assert(s@.take(s@.len() as int) =~= s@);
        }
        if !blank && printable {
            Ok(AccountNumber(s.to_owned()))
        } else {
            Err(Error::AccountIdParseError(s.to_owned()))
        }
    }

    /// The account number as text.
    pub fn as_str(&self) -> (text: &str)
        ensures
            text@ == self@,
    {
        self.0.as_str()
    }

    /// The account number as text.
    pub fn to_string(&self) -> (text: String)
        ensures
            text@ == self@,
    {
        self.0.clone()
    }
}

impl FromStr for AccountNumber {
    type Err = Error;

    /// Reads an account number, as [`AccountNumber::parse`] does: the text
    /// itself where it is not blank and holds a printable character, and an
    /// `AccountIdParseError` with the text where it is not.
    fn from_str(s: &str) -> (result: Result<Self, Self::Err>)
        ensures
            viewed(result) == account_number_in(s@),
    {
        AccountNumber::parse(s)
    }
}

/// The kinds of event in the history of an account.
#[derive(Debug, Clone, Copy, PartialEq, Eq, Structural)]
#[non_exhaustive]
pub enum EventType {
    Trade,
    Option,
    Ach,
    Wire,
    Dividend,
    Fee,
    Tax,
    Journal,
    Check,
    Transfer,
    Adjustment,
}

impl EventType {
    /// The word that stands for the kind of event in a request.
    pub open spec fn wire_name(self) -> Seq<char> {
        match self {
            EventType::Trade => "trade"@,
            EventType::Option => "option"@,
            EventType::Ach => "ach"@,
            EventType::Wire => "wire"@,
            EventType::Dividend => "dividend"@,
            EventType::Fee => "fee"@,
            EventType::Tax => "tax"@,
            EventType::Journal => "journal"@,
            EventType::Check => "check"@,
            EventType::Transfer => "transfer"@,
            EventType::Adjustment => "adjustment"@,
        }
    }

    /// The word that stands for the kind of event.
    pub fn as_str(&self) -> (word: &'static str)
        ensures
            word@ == self.wire_name(),
    {
        match self {
            EventType::Trade => "trade",
            EventType::Option => "option",
            EventType::Ach => "ach",
            EventType::Wire => "wire",
            EventType::Dividend => "dividend",
            EventType::Fee => "fee",
            EventType::Tax => "tax",
            EventType::Journal => "journal",
            EventType::Check => "check",
            EventType::Transfer => "transfer",
            EventType::Adjustment => "adjustment",
        }
    }

    /// The word that stands for the kind of event.
    pub fn to_string(&self) -> (word: String)
        ensures
            word@ == self.wire_name(),
    {
        self.as_str().to_owned()
    }
}

} // verus!
