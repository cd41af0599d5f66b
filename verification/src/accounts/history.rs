//! What to ask for when the history of an account is requested.

use crate::accounts::types::EventType;
use crate::address::pair_texts;
use crate::text::{decimal, decimal_text, join_separated, optional_text, separated, texts};
use vstd::prelude::*;

verus! {

/// The selection of events to ask for. A setting that is unset is left out
/// of the request. Dates are given as the service reads them, `YYYY-MM-DD`.
#[derive(Debug, Clone, Copy)]
pub struct HistoryQuery<'a> {
    pub page: Option<u32>,
    pub limit: Option<u32>,
    pub event_types: Option<&'a [EventType]>,
    pub start: Option<&'a str>,
    pub end: Option<&'a str>,
    pub symbol: Option<&'a str>,
    pub exact_match: Option<bool>,
}

/// A pair of the query where the setting is set, nothing where it is not.
pub open spec fn optional_pair(name: Seq<char>, value: Option<Seq<char>>) -> Seq<
    (Seq<char>, Seq<char>),
> {
    match value {
        Some(value) => seq![(name, value)],
        None => Seq::empty(),
    }
}

/// The words of the kinds of event.
pub open spec fn event_words(event_types: Seq<EventType>) -> Seq<Seq<char>> {
    event_types.map_values(|event_type: EventType| event_type.wire_name())
}

impl<'a> HistoryQuery<'a> {
    /// The value of `type`: the words of the kinds of event with commas
    /// between them, where kinds are given and there is at least one.
    pub open spec fn type_value(self) -> Option<Seq<char>> {
        match self.event_types {
            Some(event_types) => if event_types@.len() > 0 {
                Some(separated(event_words(event_types@), ","@))
            } else {
                None
            },
            None => None,
        }
    }

    /// The pairs of the query, in this order: `page`, `limit`, `type`,
    /// `start`, `end`, `symbol`, `exactMatch`, each only where it is set.
    pub open spec fn pairs(self) -> Seq<(Seq<char>, Seq<char>)> {
        optional_pair(
            "page"@,
            match self.page {
                Some(page) => Some(decimal(page as nat)),
                None => None,
            },
        ) + optional_pair(
            "limit"@,
            match self.limit {
                Some(limit) => Some(decimal(limit as nat)),
                None => None,
            },
        ) + optional_pair("type"@, self.type_value()) + optional_pair(
            "start"@,
            match self.start {
                Some(start) => Some(start@),
                None => None,
            },
        ) + optional_pair(
            "end"@,
            match self.end {
                Some(end) => Some(end@),
                None => None,
            },
        ) + optional_pair(
            "symbol"@,
            match self.symbol {
                Some(symbol) => Some(symbol@),
                None => None,
            },
        ) + optional_pair(
            "exactMatch"@,
            match self.exact_match {
                Some(true) => Some("true"@),
                Some(false) => Some("false"@),
                None => None,
            },
        )
    }

    /// A query that asks for everything.
    pub fn new() -> (query: Self)
        ensures
            query.pairs() == Seq::<(Seq<char>, Seq<char>)>::empty(),
    {
        let query = HistoryQuery {
            page: None,
            limit: None,
            event_types: None,
            start: None,
            end: None,
            symbol: None,
            exact_match: None,
        };
        assert(query.pairs() =~= Seq::<(Seq<char>, Seq<char>)>::empty());
        query
    }

    /// The words of the kinds of event, with commas between them, where
    /// kinds are given and there is at least one.
    pub fn type_text(&self) -> (value: Option<String>)
        ensures
            optional_text(value) == self.type_value(),
    {
        match self.event_types {
            Some(event_types) => {
                if event_types.len() > 0 {
                    let mut words: Vec<String> = Vec::new();
                    let mut at: usize = 0;
                    while at < event_types.len()
                        invariant
                            at <= event_types.len(),
                            words@.len() == at,
                            forall|i: int|
                                0 <= i < at ==> words@[i]@ == event_types@[i].wire_name(),
                        decreases event_types.len() - at,
                    {
                        words.push(event_types[at].to_string());
                        at += 1;
                    }
                    assert(texts(words@) =~= event_words(event_types@));
                    Some(join_separated(&words, ","))
                } else {
                    None
                }
            },
            None => None,
        }
    }

    /// The pairs of names and values to append to the address of the
    /// request.
    pub fn query_pairs(&self) -> (pairs: Vec<(String, String)>)
        ensures
            pair_texts(pairs@) == self.pairs(),
    {
        let mut pairs: Vec<(String, String)> = Vec::new();
        assert(pair_texts(pairs@) =~= Seq::<(Seq<char>, Seq<char>)>::empty());
        push_optional(
            &mut pairs,
            "page",
            match self.page {
                Some(page) => Some(decimal_text(page as u64)),
                None => None,
            },
        );
        push_optional(
            &mut pairs,
            "limit",
            match self.limit {
                Some(limit) => Some(decimal_text(limit as u64)),
                None => None,
            },
        );
        push_optional(&mut pairs, "type", self.type_text());
        push_optional(&mut pairs, "start", owned(self.start));
        push_optional(&mut pairs, "end", owned(self.end));
        push_optional(&mut pairs, "symbol", owned(self.symbol));
        push_optional(
            &mut pairs,
            "exactMatch",
            match self.exact_match {
                Some(true) => Some("true".to_owned()),
                Some(false) => Some("false".to_owned()),
                None => None,
            },
        );
        assert(pair_texts(pairs@) =~= self.pairs());
        pairs
    }
}

/// A copy of a text that may be missing.
pub fn owned(value: Option<&str>) -> (copy: Option<String>)
    ensures
        optional_text(copy) == (match value {
            Some(text) => Some(text@),
            None => None,
        }),
{
    match value {
        Some(text) => Some(text.to_owned()),
        None => None,
    }
}

/// Adds the pair of a setting to the pairs, where the setting is set.
pub fn push_optional(pairs: &mut Vec<(String, String)>, name: &str, value: Option<String>)
    ensures
        pair_texts(final(pairs)@) == pair_texts(old(pairs)@) + optional_pair(name@, optional_text(value)),
{
    match value {
        Some(value) => {
            pairs.push((name.to_owned(), value));
            assert(pair_texts(pairs@) =~= pair_texts(old(pairs)@) + optional_pair(
                name@,
                Some(value@),
            ));
        },
        None => {
            assert(pair_texts(pairs@) =~= pair_texts(old(pairs)@) + optional_pair(name@, None));
        },
    }
}

} // verus!
