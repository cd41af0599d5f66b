//! The message that subscribes a market stream to symbols.

use crate::error::Error;
use crate::json::{
    json_array, json_bool, json_object, json_quoted, quote_json, render_array, render_bool,
    render_member, rendered_members,
};
use crate::text::{debug_quoted, join_separated, quote_debug, separated, texts};
use crate::wssession::filter::MarketSessionFilter;
use std::borrow::Cow;
use vstd::prelude::*;

verus! {

/// The member for a flag that may be unset: none at all when it is.
pub open spec fn optional_flag(key: Seq<char>, flag: Option<bool>) -> Seq<(Seq<char>, Seq<char>)> {
    match flag {
        Some(value) => seq![(key, json_bool(value))],
        None => Seq::empty(),
    }
}

/// The tokens of the filters as JSON strings.
pub open spec fn filter_literals(filters: Seq<MarketSessionFilter>) -> Seq<Seq<char>> {
    filters.map_values(|filter: MarketSessionFilter| "\""@ + filter.wire_name() + "\""@)
}

/// Renders the tokens of the filters as JSON strings.
pub fn render_filters(filters: &[MarketSessionFilter]) -> (literals: Vec<String>)
    ensures
        texts(literals@) == filter_literals(filters@),
{
    let mut literals: Vec<String> = Vec::new();
    let mut at: usize = 0;
    while at < filters.len()
        invariant
            at <= filters.len(),
            literals@.len() == at,
            forall|i: int| 0 <= i < at ==> literals@[i]@ == filter_literals(filters@)[i],
        decreases filters.len() - at,
    {
        let mut literal = "\"".to_owned();
        literal.append(filters[at].as_ref());
        literal.append("\"");
        literals.push(literal);
        at += 1;
    }
    assert(texts(literals@) =~= filter_literals(filters@));
    literals
}

/// The message that subscribes a market stream to symbols.
#[derive(Debug)]
pub struct MarketSessionPayload<'a> {
    pub symbols: Cow<'a, [String]>,
    pub filters: Option<Cow<'a, [MarketSessionFilter]>>,
    pub session_id: Cow<'a, str>,
    pub linebreak: Option<bool>,
    pub valid_only: Option<bool>,
    pub advanced_details: Option<bool>,
}

impl<'a> MarketSessionPayload<'a> {
    /// The symbols, in their order.
    pub open spec fn symbol_texts(self) -> Seq<Seq<char>> {
        texts(
            match self.symbols {
                Cow::Borrowed(symbols) => symbols@,
                Cow::Owned(symbols) => symbols@,
            },
        )
    }

    /// The filters, if any are set.
    pub open spec fn filter_values(self) -> Option<Seq<MarketSessionFilter>> {
        match self.filters {
            Some(Cow::Borrowed(filters)) => Some(filters@),
            Some(Cow::Owned(filters)) => Some(filters@),
            None => None,
        }
    }

    /// The session identifier.
    pub open spec fn session_text(self) -> Seq<char> {
        match self.session_id {
            Cow::Borrowed(session_id) => session_id@,
            Cow::Owned(session_id) => session_id@,
        }
    }

    /// The members of the message, given the JSON literals of the symbols
    /// and of the session identifier: `symbols`, then `filters` if set, then
    /// `sessionid`, then each of `linebreak`, `validOnly` and
    /// `advancedDetails` that is set. A setting that is unset has no member.
    pub open spec fn members_with(
        self,
        symbol_literals: Seq<Seq<char>>,
        session_literal: Seq<char>,
    ) -> Seq<(Seq<char>, Seq<char>)> {
        seq![("symbols"@, json_array(symbol_literals))] + (match self.filter_values() {
            Some(filters) => seq![("filters"@, json_array(filter_literals(filters)))],
            None => Seq::empty(),
        }) + seq![("sessionid"@, session_literal)] + optional_flag("linebreak"@, self.linebreak)
            + optional_flag("validOnly"@, self.valid_only) + optional_flag(
            "advancedDetails"@,
            self.advanced_details,
        )
    }

    /// The members of the message on the wire.
    pub open spec fn wire_members(self) -> Seq<(Seq<char>, Seq<char>)> {
        self.members_with(
            self.symbol_texts().map_values(|symbol: Seq<char>| json_quoted(symbol)),
            json_quoted(self.session_text()),
        )
    }

    /// The message on the wire: one JSON object, without spaces.
    pub open spec fn wire_text(self) -> Seq<char> {
        json_object(self.wire_members())
    }

    /// A payload of the given settings.
    pub fn new(
        symbols: &'a [String],
        filters: Option<&'a [MarketSessionFilter]>,
        session_id: &'a str,
        linebreak: Option<bool>,
        valid_only: Option<bool>,
        advanced_details: Option<bool>,
    ) -> (payload: Self)
        ensures
            payload.symbol_texts() == texts(symbols@),
            payload.filter_values() == (match filters {
                Some(filters) => Some(filters@),
                None => None,
            }),
            payload.session_text() == session_id@,
            payload.linebreak == linebreak,
            payload.valid_only == valid_only,
            payload.advanced_details == advanced_details,
    {
        MarketSessionPayload {
            symbols: Cow::Borrowed(symbols),
            filters: match filters {
                Some(filters) => Some(Cow::Borrowed(filters)),
                None => None,
            },
            session_id: Cow::Borrowed(session_id),
            linebreak,
            valid_only,
            advanced_details,
        }
    }

    /// The payload that the service recommends for the given symbols: quotes
    /// only, a line break after each event, all ticks, plain details.
    pub fn recommended(symbols: &'a [String], session_id: &'a str) -> (payload: Self)
        ensures
            payload.symbol_texts() == texts(symbols@),
            payload.filter_values() == Some(seq![MarketSessionFilter::QUOTE]),
            payload.session_text() == session_id@,
            payload.linebreak == Some(true),
            payload.valid_only == Some(false),
            payload.advanced_details == Some(false),
    {
        MarketSessionPayload {
            symbols: Cow::Borrowed(symbols),
            filters: Some(Cow::Owned(vec![MarketSessionFilter::QUOTE])),
            session_id: Cow::Borrowed(session_id),
            linebreak: Some(true),
            valid_only: Some(false),
            advanced_details: Some(false),
        }
    }
}

impl<'a> MarketSessionPayload<'a> {
    /// The symbols.
    pub fn symbols(&self) -> (symbols: &[String])
        ensures
            texts(symbols@) == self.symbol_texts(),
    {
        match &self.symbols {
            Cow::Borrowed(symbols) => symbols,
            Cow::Owned(symbols) => symbols.as_slice(),
        }
    }

    /// The filters, if any are set.
    pub fn filters(&self) -> (filters: Option<&[MarketSessionFilter]>)
        ensures
            match filters {
                Some(filters) => self.filter_values() == Some(filters@),
                None => self.filter_values() is None,
            },
    {
        match &self.filters {
            Some(Cow::Borrowed(filters)) => Some(filters),
            Some(Cow::Owned(filters)) => Some(filters.as_slice()),
            None => None,
        }
    }

    /// The session identifier.
    pub fn session_id(&self) -> (session_id: &str)
        ensures
            session_id@ == self.session_text(),
    {
        match &self.session_id {
            Cow::Borrowed(session_id) => session_id,
            Cow::Owned(session_id) => session_id.as_str(),
        }
    }

    /// Frames the message from the JSON literals of the symbols and of the
    /// session identifier.
    pub fn assemble(&self, symbol_literals: &Vec<String>, session_literal: &str) -> (message: String)
        ensures
            message@ == json_object(self.members_with(texts(symbol_literals@), session_literal@)),
    {
        let ghost mut members: Seq<(Seq<char>, Seq<char>)> = Seq::empty();
        let mut parts: Vec<String> = Vec::new();
        let symbols = render_array(symbol_literals);
        parts.push(render_member("symbols", symbols.as_str()));
        proof {
            members = members.push(("symbols"@, symbols@));
            assert(texts(parts@) =~= rendered_members(members));
        }
        match self.filters() {
            Some(filters) => {
                let literals = render_filters(filters);
                let array = render_array(&literals);
                parts.push(render_member("filters", array.as_str()));
                proof {
                    members = members.push(("filters"@, array@));
                    assert(texts(parts@) =~= rendered_members(members));
                }
            },
            None => {},
        }
        parts.push(render_member("sessionid", session_literal));
        proof {
            members = members.push(("sessionid"@, session_literal@));
            assert(texts(parts@) =~= rendered_members(members));
        }
        match self.linebreak {
            Some(flag) => {
                parts.push(render_member("linebreak", render_bool(flag)));
                proof {
                    members = members.push(("linebreak"@, json_bool(flag)));
                    assert(texts(parts@) =~= rendered_members(members));
                }
            },
            None => {},
        }
        match self.valid_only {
            Some(flag) => {
                parts.push(render_member("validOnly", render_bool(flag)));
                proof {
                    members = members.push(("validOnly"@, json_bool(flag)));
                    assert(texts(parts@) =~= rendered_members(members));
                }
            },
            None => {},
        }
        match self.advanced_details {
            Some(flag) => {
                parts.push(render_member("advancedDetails", render_bool(flag)));
                proof {
                    members = members.push(("advancedDetails"@, json_bool(flag)));
                    assert(texts(parts@) =~= rendered_members(members));
                }
            },
            None => {},
        }
        proof {
            assert(members =~= self.members_with(texts(symbol_literals@), session_literal@));
        }
        let mut message = "{".to_owned();
        let inner = join_separated(&parts, ",");
        message.append(inner.as_str());
        message.append("}");
        message
    }

    /// The message as text, ready to be sent as one text frame. Escaping is
    /// done by `serde_json`, which takes every text, so the message always
    /// comes; the error is kept in the signature for an encoder that could
    /// refuse.
    pub fn get_message(&self) -> (result: Result<String, Error>)
        ensures
            result matches Ok(message) && message@ == self.wire_text(),
    {
        let symbols = self.symbols();
        let mut literals: Vec<String> = Vec::new();
        let mut at: usize = 0;
        while at < symbols.len()
            invariant
                at <= symbols.len(),
                literals@.len() == at,
                forall|i: int| 0 <= i < at ==> literals@[i]@ == json_quoted(symbols@[i]@),
            decreases symbols.len() - at,
        {
            match quote_json(symbols[at].as_str()) {
                Ok(literal) => {
                    literals.push(literal);
                },
                Err(message) => {
                    return Err(Error::JsonParsingError(message));
                },
            }
            at += 1;
        }
        match quote_json(self.session_id()) {
            Ok(session_literal) => {
                proof {
                    assert(texts(literals@) =~= self.symbol_texts().map_values(
                        |symbol: Seq<char>| json_quoted(symbol),
                    ));
                }
                Ok(self.assemble(&literals, session_literal.as_str()))
            },
            Err(message) => Err(Error::JsonParsingError(message)),
        }
    }
}

/// Whether an object has a member with the given key.
pub open spec fn has_member(members: Seq<(Seq<char>, Seq<char>)>, key: Seq<char>) -> bool {
    exists|i: int| 0 <= i < members.len() && (#[trigger] members[i]).0 == key
}

/// A member of two runs of members put together is a member of one of them.
pub proof fn lemma_members_of_both(
    first: Seq<(Seq<char>, Seq<char>)>,
    second: Seq<(Seq<char>, Seq<char>)>,
    key: Seq<char>,
)
    ensures
        has_member(first + second, key) <==> has_member(first, key) || has_member(second, key),
{
    let both = first + second;
    if has_member(both, key) {
        let i = choose|i: int| 0 <= i < both.len() && (#[trigger] both[i]).0 == key;
        if i < first.len() {
            assert(first[i].0 == key);
        } else {
            assert(second[i - first.len()].0 == key);
        }
    }
    if has_member(first, key) {
        let i = choose|i: int| 0 <= i < first.len() && (#[trigger] first[i]).0 == key;
        assert(both[i].0 == key);
    }
    if has_member(second, key) {
        let i = choose|i: int| 0 <= i < second.len() && (#[trigger] second[i]).0 == key;
        assert(both[i + first.len()].0 == key);
    }
}

/// The six keys of the message are six different texts.
pub proof fn lemma_keys_differ()
    ensures
        "symbols"@ != "filters"@,
        "symbols"@ != "sessionid"@,
        "symbols"@ != "linebreak"@,
        "symbols"@ != "validOnly"@,
        "symbols"@ != "advancedDetails"@,
        "filters"@ != "sessionid"@,
        "filters"@ != "linebreak"@,
        "filters"@ != "validOnly"@,
        "filters"@ != "advancedDetails"@,
        "sessionid"@ != "linebreak"@,
        "sessionid"@ != "validOnly"@,
        "sessionid"@ != "advancedDetails"@,
        "linebreak"@ != "validOnly"@,
        "linebreak"@ != "advancedDetails"@,
        "validOnly"@ != "advancedDetails"@,
{
    reveal_strlit("symbols");
    reveal_strlit("filters");
    reveal_strlit("sessionid");
    reveal_strlit("linebreak");
    reveal_strlit("validOnly");
    reveal_strlit("advancedDetails");
    assert("symbols"@[0] == 's' && "filters"@[0] == 'f' && "sessionid"@[0] == 's');
    assert("linebreak"@[0] == 'l' && "validOnly"@[0] == 'v' && "advancedDetails"@[0] == 'a');
    assert("symbols"@.len() == 7 && "sessionid"@.len() == 9);
}

/// Settings that are unset are left out of the message, not written as
/// `null`: the message has a member for `filters`, `linebreak`, `validOnly`
/// or `advancedDetails` exactly when the setting is set, and the member of a
/// flag holds `true` or `false`. `symbols` and `sessionid` are always there.
pub proof fn lemma_unset_settings_are_omitted(payload: MarketSessionPayload)
    ensures
        has_member(payload.wire_members(), "symbols"@),
        has_member(payload.wire_members(), "sessionid"@),
        has_member(payload.wire_members(), "filters"@) <==> payload.filter_values() is Some,
        has_member(payload.wire_members(), "linebreak"@) <==> payload.linebreak is Some,
        has_member(payload.wire_members(), "validOnly"@) <==> payload.valid_only is Some,
        has_member(payload.wire_members(), "advancedDetails"@) <==> payload.advanced_details
            is Some,
        forall|i: int|
            0 <= i < payload.wire_members().len() ==> {
                let key = (#[trigger] payload.wire_members()[i]).0;
                let value = payload.wire_members()[i].1;
                (key == "linebreak"@ || key == "validOnly"@ || key == "advancedDetails"@) ==> (value
                    == "true"@ || value == "false"@)
            },
{
    lemma_keys_differ();
    let symbols = seq![
        (
            "symbols"@,
            json_array(
                payload.symbol_texts().map_values(|symbol: Seq<char>| json_quoted(symbol)),
            ),
        ),
    ];
    let filters = match payload.filter_values() {
        Some(filters) => seq![("filters"@, json_array(filter_literals(filters)))],
        None => Seq::empty(),
    };
    let session = seq![("sessionid"@, json_quoted(payload.session_text()))];
    let linebreak = optional_flag("linebreak"@, payload.linebreak);
    let valid_only = optional_flag("validOnly"@, payload.valid_only);
    let advanced = optional_flag("advancedDetails"@, payload.advanced_details);
    let members = payload.wire_members();
    assert(members == symbols + filters + session + linebreak + valid_only + advanced);
    assert(symbols[0].0 == "symbols"@);
    assert(session[0].0 == "sessionid"@);
    if payload.filter_values() is Some {
        assert(filters[0].0 == "filters"@);
    }
    if payload.linebreak is Some {
        assert(linebreak[0].0 == "linebreak"@);
    }
    if payload.valid_only is Some {
        assert(valid_only[0].0 == "validOnly"@);
    }
    if payload.advanced_details is Some {
        assert(advanced[0].0 == "advancedDetails"@);
    }
    assert forall|key: Seq<char>| #[trigger]
        has_member(members, key) <==> (has_member(symbols, key) || has_member(filters, key)
            || has_member(session, key) || has_member(linebreak, key) || has_member(
            valid_only,
            key,
        ) || has_member(advanced, key)) by {
        lemma_members_of_both(symbols, filters, key);
        lemma_members_of_both(symbols + filters, session, key);
        lemma_members_of_both(symbols + filters + session, linebreak, key);
        lemma_members_of_both(symbols + filters + session + linebreak, valid_only, key);
        lemma_members_of_both(
            symbols + filters + session + linebreak + valid_only,
            advanced,
            key,
        );
    }
    assert forall|i: int| 0 <= i < members.len() implies {
        let key = (#[trigger] members[i]).0;
        let value = members[i].1;
        (key == "linebreak"@ || key == "validOnly"@ || key == "advancedDetails"@) ==> (value
            == "true"@ || value == "false"@)
    } by {
        let a = symbols.len();
        let b = a + filters.len();
        let c = b + session.len();
        let d = c + linebreak.len();
        let e = d + valid_only.len();
        if i < a {
            assert(members[i] == symbols[i]);
        } else if i < b {
            assert(members[i] == filters[i - a]);
        } else if i < c {
            assert(members[i] == session[i - b]);
        } else if i < d {
            assert(members[i] == linebreak[i - c]);
        } else if i < e {
            assert(members[i] == valid_only[i - d]);
        } else {
            assert(members[i] == advanced[i - e]);
        }
    }
}

/// A list as it is shown: the items between square brackets, each as Rust's
/// `Debug` formatting writes a text, with a comma and a space between two.
pub open spec fn shown_list(items: Seq<Seq<char>>) -> Seq<char> {
    "["@ + separated(items.map_values(|item: Seq<char>| debug_quoted(item)), ", "@) + "]"@
}

/// A flag that may be unset, as it is shown.
pub open spec fn shown_flag(flag: Option<bool>) -> Seq<char> {
    match flag {
        Some(true) => "true"@,
        Some(false) => "false"@,
        None => "None"@,
    }
}

/// The tokens of the filters.
pub open spec fn filter_names(filters: Seq<MarketSessionFilter>) -> Seq<Seq<char>> {
    filters.map_values(|filter: MarketSessionFilter| filter.wire_name())
}

/// Shows a list of texts.
pub fn show_list(items: &Vec<String>) -> (text: String)
    ensures
        text@ == shown_list(texts(items@)),
{
    let mut quoted: Vec<String> = Vec::new();
    let mut at: usize = 0;
    while at < items.len()
        invariant
            at <= items.len(),
            quoted@.len() == at,
            forall|i: int| 0 <= i < at ==> quoted@[i]@ == debug_quoted(items@[i]@),
        decreases items.len() - at,
    {
        quoted.push(quote_debug(items[at].as_str()));
        at += 1;
    }
    assert(texts(quoted@) =~= texts(items@).map_values(|item: Seq<char>| debug_quoted(item)));
    let mut text = "[".to_owned();
    text.append(join_separated(&quoted, ", ").as_str());
    text.append("]");
    text
}

/// Shows a flag that may be unset.
pub fn show_flag(flag: Option<bool>) -> (text: &'static str)
    ensures
        text@ == shown_flag(flag),
{
    match flag {
        Some(true) => "true",
        Some(false) => "false",
        None => "None",
    }
}

impl<'a> MarketSessionPayload<'a> {
    /// The payload as it is shown to a reader.
    pub open spec fn shown(self) -> Seq<char> {
        "MarketSessionPayload { symbols: "@ + shown_list(self.symbol_texts()) + ", filter: "@
            + shown_list(
            match self.filter_values() {
                Some(filters) => filter_names(filters),
                None => Seq::empty(),
            },
        ) + ", session_id: "@ + self.session_text() + ", linebreak: "@ + shown_flag(self.linebreak)
            + ", valid_only: "@ + shown_flag(self.valid_only) + ", advanced_details: "@
            + shown_flag(self.advanced_details) + " }"@
    }

    /// Shows the payload: the symbols, the filters by their tokens, the
    /// session identifier and the three settings.
    pub fn to_string(&self) -> (text: String)
        ensures
            text@ == self.shown(),
    {
        let symbols = self.symbols();
        let mut symbol_list: Vec<String> = Vec::new();
        let mut at: usize = 0;
        while at < symbols.len()
            invariant
                at <= symbols.len(),
                symbol_list@.len() == at,
                forall|i: int| 0 <= i < at ==> symbol_list@[i]@ == symbols@[i]@,
            decreases symbols.len() - at,
        {
            symbol_list.push(symbols[at].clone());
            at += 1;
        }
        assert(texts(symbol_list@) =~= self.symbol_texts());
        let mut names: Vec<String> = Vec::new();
        match self.filters() {
            Some(filters) => {
                let mut at: usize = 0;
                while at < filters.len()
                    invariant
                        at <= filters.len(),
                        names@.len() == at,
                        forall|i: int| 0 <= i < at ==> names@[i]@ == filters@[i].wire_name(),
                    decreases filters.len() - at,
                {
                    names.push(filters[at].as_ref().to_owned());
                    at += 1;
                }
                assert(texts(names@) =~= filter_names(filters@));
            },
            None => {
                assert(texts(names@) =~= Seq::<Seq<char>>::empty());
            },
        }
        let mut text = "MarketSessionPayload { symbols: ".to_owned();
        text.append(show_list(&symbol_list).as_str());
        text.append(", filter: ");
        text.append(show_list(&names).as_str());
        text.append(", session_id: ");
        text.append(self.session_id());
        text.append(", linebreak: ");
        text.append(show_flag(self.linebreak));
        text.append(", valid_only: ");
        text.append(show_flag(self.valid_only));
        text.append(", advanced_details: ");
        text.append(show_flag(self.advanced_details));
        text.append(" }");
        text
    }
}

/// Collects the settings of a payload one by one. The two type flags record
/// whether the symbols and the session identifier have been given; only a
/// builder that has both can build.
#[derive(Debug)]
pub struct MarketSessionPayloadBuilder<'a, const SYMBOLS: bool, const SESSION: bool> {
    payload: MarketSessionPayload<'a>,
}

impl<'a> MarketSessionPayload<'a> {
    /// A builder with nothing set.
    pub fn builder() -> (builder: MarketSessionPayloadBuilder<'a, false, false>)
        ensures
            builder.collected().symbol_texts() == Seq::<Seq<char>>::empty(),
            builder.collected().filter_values() is None,
            builder.collected().session_text() == Seq::<char>::empty(),
            builder.collected().linebreak is None,
            builder.collected().valid_only is None,
            builder.collected().advanced_details is None,
    {
        let payload = MarketSessionPayload {
            symbols: Cow::Owned(Vec::new()),
            filters: None,
            session_id: Cow::Owned(String::new()),
            linebreak: None,
            valid_only: None,
            advanced_details: None,
        };
        assert(payload.symbol_texts() =~= Seq::<Seq<char>>::empty());
        MarketSessionPayloadBuilder { payload }
    }
}

impl<'a, const SYMBOLS: bool, const SESSION: bool> MarketSessionPayloadBuilder<
    'a,
    SYMBOLS,
    SESSION,
> {
    /// What has been collected so far.
    pub closed spec fn collected(self) -> MarketSessionPayload<'a> {
        self.payload
    }

    /// Sets the symbols to subscribe to.
    pub fn symbols(self, symbols: &'a [String]) -> (builder: MarketSessionPayloadBuilder<
        'a,
        true,
        SESSION,
    >)
        ensures
            builder.collected() == (MarketSessionPayload {
                symbols: Cow::Borrowed(symbols),
                ..self.collected()
            }),
    {
        MarketSessionPayloadBuilder {
            payload: MarketSessionPayload { symbols: Cow::Borrowed(symbols), ..self.payload },
        }
    }

    /// Sets the session identifier.
    pub fn session_id(self, session_id: &'a str) -> (builder: MarketSessionPayloadBuilder<
        'a,
        SYMBOLS,
        true,
    >)
        ensures
            builder.collected() == (MarketSessionPayload {
                session_id: Cow::Borrowed(session_id),
                ..self.collected()
            }),
    {
        MarketSessionPayloadBuilder {
            payload: MarketSessionPayload { session_id: Cow::Borrowed(session_id), ..self.payload },
        }
    }

    /// Sets the filters.
    pub fn filters(self, filters: &'a [MarketSessionFilter]) -> (builder: Self)
        ensures
            builder.collected() == (MarketSessionPayload {
                filters: Some(Cow::Borrowed(filters)),
                ..self.collected()
            }),
    {
        MarketSessionPayloadBuilder {
            payload: MarketSessionPayload { filters: Some(Cow::Borrowed(filters)), ..self.payload },
        }
    }

    /// Sets whether a line break follows each event.
    pub fn linebreak(self, linebreak: bool) -> (builder: Self)
        ensures
            builder.collected() == (MarketSessionPayload {
                linebreak: Some(linebreak),
                ..self.collected()
            }),
    {
        MarketSessionPayloadBuilder {
            payload: MarketSessionPayload { linebreak: Some(linebreak), ..self.payload },
        }
    }

    /// Sets whether only ticks that the exchanges hold valid are sent.
    pub fn valid_only(self, valid_only: bool) -> (builder: Self)
        ensures
            builder.collected() == (MarketSessionPayload {
                valid_only: Some(valid_only),
                ..self.collected()
            }),
    {
        MarketSessionPayloadBuilder {
            payload: MarketSessionPayload { valid_only: Some(valid_only), ..self.payload },
        }
    }

    /// Sets whether time and sales events come with advanced details.
    pub fn advanced_details(self, advanced_details: bool) -> (builder: Self)
        ensures
            builder.collected() == (MarketSessionPayload {
                advanced_details: Some(advanced_details),
                ..self.collected()
            }),
    {
        MarketSessionPayloadBuilder {
            payload: MarketSessionPayload {
                advanced_details: Some(advanced_details),
                ..self.payload
            },
        }
    }
}

impl<'a> MarketSessionPayloadBuilder<'a, true, true> {
    /// The payload of what has been collected.
    pub fn build(self) -> (payload: MarketSessionPayload<'a>)
        ensures
            payload == self.collected(),
    {
        self.payload
    }
}

impl<'a> Clone for MarketSessionPayload<'a> {
    fn clone(&self) -> (copy: Self)
        ensures
            copy.symbol_texts() == self.symbol_texts(),
            copy.filter_values() == self.filter_values(),
            copy.session_text() == self.session_text(),
            copy.linebreak == self.linebreak,
            copy.valid_only == self.valid_only,
            copy.advanced_details == self.advanced_details,
    {
        MarketSessionPayload {
            symbols: match &self.symbols {
                Cow::Borrowed(symbols) => Cow::Borrowed(*symbols),
                Cow::Owned(symbols) => Cow::Owned(symbols.clone()),
            },
            filters: match &self.filters {
                Some(Cow::Borrowed(filters)) => Some(Cow::Borrowed(*filters)),
                Some(Cow::Owned(filters)) => Some(Cow::Owned(filters.clone())),
                None => None,
            },
            session_id: match &self.session_id {
                Cow::Borrowed(session_id) => Cow::Borrowed(*session_id),
                Cow::Owned(session_id) => Cow::Owned(session_id.clone()),
            },
            linebreak: self.linebreak,
            valid_only: self.valid_only,
            advanced_details: self.advanced_details,
        }
    }
}

} // verus!
