//! The filters of the market stream: which kinds of event a subscription
//! asks for, and the tokens that stand for them on the wire.

use crate::error::{Error, ErrorView};
use crate::text::same_text;
use vstd::prelude::*;

verus! {

/// The kinds of market event that a subscription can ask for.
#[allow(clippy::upper_case_acronyms)]
#[derive(Debug, Clone, Copy, PartialEq, Eq, PartialOrd, Ord, Structural)]
pub enum MarketSessionFilter {
    TRADE,
    QUOTE,
    SUMMARY,
    TIMESALE,
    TRADEX,
}

impl MarketSessionFilter {
    /// The token that stands for the filter on the wire.
    pub open spec fn wire_name(self) -> Seq<char> {
        match self {
            MarketSessionFilter::TRADE => "trade"@,
            MarketSessionFilter::QUOTE => "quote"@,
            MarketSessionFilter::SUMMARY => "summary"@,
            MarketSessionFilter::TIMESALE => "timesale"@,
            MarketSessionFilter::TRADEX => "tradex"@,
        }
    }

    /// The filter that a token stands for, if it stands for one. This is the
    /// one table that both directions go by.
    pub open spec fn named(token: Seq<char>) -> Option<MarketSessionFilter> {
        if token == "trade"@ {
            Some(MarketSessionFilter::TRADE)
        } else if token == "quote"@ {
            Some(MarketSessionFilter::QUOTE)
        } else if token == "summary"@ {
            Some(MarketSessionFilter::SUMMARY)
        } else if token == "timesale"@ {
            Some(MarketSessionFilter::TIMESALE)
        } else if token == "tradex"@ {
            Some(MarketSessionFilter::TRADEX)
        } else {
            None
        }
    }

    /// The filter's token.
    pub fn as_ref(&self) -> (name: &'static str)
        ensures
            name@ == self.wire_name(),
    {
        match self {
            MarketSessionFilter::TRADE => "trade",
            MarketSessionFilter::QUOTE => "quote",
            MarketSessionFilter::SUMMARY => "summary",
            MarketSessionFilter::TIMESALE => "timesale",
            MarketSessionFilter::TRADEX => "tradex",
        }
    }

    /// Reads a token. A token of the table gives its filter; any other text is
    /// reported back in `UnsupportedMarketFilter`, never replaced by a
    /// default.
    pub fn try_from(value: &str) -> (result: Result<MarketSessionFilter, Error>)
        ensures
            match MarketSessionFilter::named(value@) {
                Some(filter) => result == Ok::<MarketSessionFilter, Error>(filter),
                None => result matches Err(e) && e@ == ErrorView::UnsupportedMarketFilter(value@),
            },
    {
        if same_text(value, "trade") {
            Ok(MarketSessionFilter::TRADE)
        } else if same_text(value, "quote") {
            Ok(MarketSessionFilter::QUOTE)
        } else if same_text(value, "summary") {
            Ok(MarketSessionFilter::SUMMARY)
        } else if same_text(value, "timesale") {
            Ok(MarketSessionFilter::TIMESALE)
        } else if same_text(value, "tradex") {
            Ok(MarketSessionFilter::TRADEX)
        } else {
            Err(Error::UnsupportedMarketFilter(value.to_owned()))
        }
    }
}

impl From<MarketSessionFilter> for String {
    fn from(val: MarketSessionFilter) -> (name: String)
        ensures
            name@ == val.wire_name(),
    {
        val.as_ref().to_owned()
    }
}

impl vstd::std_specs::convert::FromSpecImpl<MarketSessionFilter> for String {
    open spec fn obeys_from_spec() -> bool {
        false
    }

    open spec fn from_spec(v: MarketSessionFilter) -> String {
        arbitrary()
    }
}

/// The five tokens are five different texts.
pub proof fn lemma_wire_names_differ(a: MarketSessionFilter, b: MarketSessionFilter)
    ensures
        a.wire_name() == b.wire_name() ==> a == b,
{
    reveal_strlit("trade");
    reveal_strlit("quote");
    reveal_strlit("summary");
    reveal_strlit("timesale");
    reveal_strlit("tradex");
    assert("trade"@.len() == 5 && "quote"@.len() == 5 && "summary"@.len() == 7);
    assert("timesale"@.len() == 8 && "tradex"@.len() == 6);
    assert("trade"@[0] == 't' && "quote"@[0] == 'q');
}

/// Round trip: reading the token of a filter gives that filter back.
pub proof fn lemma_filter_round_trip(filter: MarketSessionFilter)
    ensures
        MarketSessionFilter::named(filter.wire_name()) == Some(filter),
{
    lemma_wire_names_differ(filter, MarketSessionFilter::TRADE);
    lemma_wire_names_differ(filter, MarketSessionFilter::QUOTE);
    lemma_wire_names_differ(filter, MarketSessionFilter::SUMMARY);
    lemma_wire_names_differ(filter, MarketSessionFilter::TIMESALE);
    lemma_wire_names_differ(filter, MarketSessionFilter::TRADEX);
}

/// A token is read as a filter exactly when it is that filter's own token,
/// so no other text is ever taken for one.
pub proof fn lemma_filter_named_only_by_its_token(token: Seq<char>, filter: MarketSessionFilter)
    ensures
        MarketSessionFilter::named(token) == Some(filter) <==> token == filter.wire_name(),
{
    lemma_filter_round_trip(filter);
}

} // verus!
