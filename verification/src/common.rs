//! What accounts of every kind have in common.

use crate::text::same_text;
use vstd::prelude::*;

verus! {

/// How an account is funded.
#[derive(Debug, Clone, Copy, PartialEq, Eq, Structural)]
#[non_exhaustive]
pub enum AccountType {
    Cash,
    Margin,
}

impl AccountType {
    /// The word that stands for the type in what the service sends.
    pub open spec fn wire_name(self) -> Seq<char> {
        match self {
            AccountType::Cash => "cash"@,
            AccountType::Margin => "margin"@,
        }
    }

    /// The type that a word stands for, if it stands for one.
    pub open spec fn named(word: Seq<char>) -> Option<AccountType> {
        if word == "cash"@ {
            Some(AccountType::Cash)
        } else if word == "margin"@ {
            Some(AccountType::Margin)
        } else {
            None
        }
    }

    /// The word that stands for the type.
    pub fn as_str(&self) -> (word: &'static str)
        ensures
            word@ == self.wire_name(),
    {
        match self {
            AccountType::Cash => "cash",
            AccountType::Margin => "margin",
        }
    }

    /// Reads the word for a type.
    pub fn from_wire(word: &str) -> (account_type: Option<AccountType>)
        ensures
            account_type == AccountType::named(word@),
    {
        if same_text(word, "cash") {
            Some(AccountType::Cash)
        } else if same_text(word, "margin") {
            Some(AccountType::Margin)
        } else {
            None
        }
    }
}

/// Reading the word of a type gives the type back.
pub proof fn lemma_account_type_round_trip(account_type: AccountType)
    ensures
        AccountType::named(account_type.wire_name()) == Some(account_type),
{
    reveal_strlit("cash");
    reveal_strlit("margin");
    assert("cash"@.len() == 4 && "margin"@.len() == 6);
}

} // verus!
