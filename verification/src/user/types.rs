//! The classification and the status of an account.

use crate::text::same_text;
use vstd::prelude::*;

verus! {

/// Who an account belongs to, in the service's terms.
#[derive(Debug, Clone, Copy, PartialEq, Eq, Structural)]
#[non_exhaustive]
pub enum AccountClassification {
    Individual,
    Corporate,
    Joint,
    Ira,
    RothIra,
    Entity,
}

impl AccountClassification {
    /// The word that stands for the classification in what the service
    /// sends.
    pub open spec fn wire_name(self) -> Seq<char> {
        match self {
            AccountClassification::Individual => "individual"@,
            AccountClassification::Corporate => "corporate"@,
            AccountClassification::Joint => "joint"@,
            AccountClassification::Ira => "ira"@,
            AccountClassification::RothIra => "rothira"@,
            AccountClassification::Entity => "entity"@,
        }
    }

    /// The classification that a word stands for, if it stands for one.
    pub open spec fn named(word: Seq<char>) -> Option<AccountClassification> {
        if word == "individual"@ {
            Some(AccountClassification::Individual)
        } else if word == "corporate"@ {
            Some(AccountClassification::Corporate)
        } else if word == "joint"@ {
            Some(AccountClassification::Joint)
        } else if word == "ira"@ {
            Some(AccountClassification::Ira)
        } else if word == "rothira"@ {
            Some(AccountClassification::RothIra)
        } else if word == "entity"@ {
            Some(AccountClassification::Entity)
        } else {
            None
        }
    }

    /// The word that stands for the classification.
    pub fn as_str(&self) -> (word: &'static str)
        ensures
            word@ == self.wire_name(),
    {
        match self {
            AccountClassification::Individual => "individual",
            AccountClassification::Corporate => "corporate",
            AccountClassification::Joint => "joint",
            AccountClassification::Ira => "ira",
            AccountClassification::RothIra => "rothira",
            AccountClassification::Entity => "entity",
        }
    }

    /// Reads the word for a classification.
    pub fn from_wire(word: &str) -> (classification: Option<AccountClassification>)
        ensures
            classification == AccountClassification::named(word@),
    {
        if same_text(word, "individual") {
            Some(AccountClassification::Individual)
        } else if same_text(word, "corporate") {
            Some(AccountClassification::Corporate)
        } else if same_text(word, "joint") {
            Some(AccountClassification::Joint)
        } else if same_text(word, "ira") {
            Some(AccountClassification::Ira)
        } else if same_text(word, "rothira") {
            Some(AccountClassification::RothIra)
        } else if same_text(word, "entity") {
            Some(AccountClassification::Entity)
        } else {
            None
        }
    }
}

/// Whether an account is open.
#[derive(Debug, Clone, Copy, PartialEq, Eq, Structural)]
#[non_exhaustive]
pub enum AccountStatus {
    Active,
    Closed,
}

impl AccountStatus {
    /// The word that stands for the status in what the service sends.
    pub open spec fn wire_name(self) -> Seq<char> {
        match self {
            AccountStatus::Active => "active"@,
            AccountStatus::Closed => "closed"@,
        }
    }

    /// The status that a word stands for, if it stands for one.
    pub open spec fn named(word: Seq<char>) -> Option<AccountStatus> {
        if word == "active"@ {
            Some(AccountStatus::Active)
        } else if word == "closed"@ {
            Some(AccountStatus::Closed)
        } else {
            None
        }
    }

    /// The word that stands for the status.
    pub fn as_str(&self) -> (word: &'static str)
        ensures
            word@ == self.wire_name(),
    {
        match self {
            AccountStatus::Active => "active",
            AccountStatus::Closed => "closed",
        }
    }

    /// Reads the word for a status.
    pub fn from_wire(word: &str) -> (status: Option<AccountStatus>)
        ensures
            status == AccountStatus::named(word@),
    {
        if same_text(word, "active") {
            Some(AccountStatus::Active)
        } else if same_text(word, "closed") {
            Some(AccountStatus::Closed)
        } else {
            None
        }
    }
}

/// Reading the word of a classification gives the classification back.
pub proof fn lemma_classification_round_trip(classification: AccountClassification)
    ensures
        AccountClassification::named(classification.wire_name()) == Some(classification),
{
    reveal_strlit("individual");
    reveal_strlit("corporate");
    reveal_strlit("joint");
    reveal_strlit("ira");
    reveal_strlit("rothira");
    reveal_strlit("entity");
    assert("individual"@.len() == 10 && "corporate"@.len() == 9 && "joint"@.len() == 5);
    assert("ira"@.len() == 3 && "rothira"@.len() == 7 && "entity"@.len() == 6);
}

/// Reading the word of a status gives the status back.
pub proof fn lemma_status_round_trip(status: AccountStatus)
    ensures
        AccountStatus::named(status.wire_name()) == Some(status),
{
    reveal_strlit("active");
    reveal_strlit("closed");
    assert("active"@[0] == 'a' && "closed"@[0] == 'c');
}

} // verus!
