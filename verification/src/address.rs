//! Addresses. Whether a text is a URL, and what URL it is, is decided by the
//! `url` crate.

use crate::error::{viewed, Error, ErrorView};
use vstd::prelude::*;

verus! {

/// What `url::Url::parse` makes of a text: the serialization of the URL, or
/// the message of the error that it reports.
pub uninterp spec fn parsed_url(text: Seq<char>) -> Result<Seq<char>, Seq<char>>;

/// What `url::Url::join` makes of a reference, with the URL that
/// `url::Url::parse` read from `base`: the serialization of the resulting URL,
/// or the message of the error of whichever of the two calls failed.
pub uninterp spec fn joined_url(base: Seq<char>, reference: Seq<char>) -> Result<
    Seq<char>,
    Seq<char>,
>;

/// Calls `url::Url::parse` and hands back the serialization of the URL, or
/// the display text of the error. The contract claims only that the outcome
/// is a function of the text, the one that [`parsed_url`] names.
#[verifier::external_body]
pub(crate) fn parse_url(text: &str) -> (parsed: Result<String, String>)
    ensures
        match parsed {
            Ok(url) => parsed_url(text@) == Ok::<Seq<char>, Seq<char>>(url@),
            Err(message) => parsed_url(text@) == Err::<Seq<char>, Seq<char>>(message@),
        },
{
    match url::Url::parse(text) {
        Ok(url) => Ok(String::from(url)),
        Err(error) => Err(error.to_string()),
    }
}

/// Calls `url::Url::parse` on `base` and `url::Url::join` on the outcome,
/// and hands back the serialization of the URL, or the display text of the
/// error. The contract claims only that the outcome is a function of the two
/// texts, the one that [`joined_url`] names.
#[verifier::external_body]
pub(crate) fn join_url(base: &str, reference: &str) -> (joined: Result<String, String>)
    ensures
        match joined {
            Ok(url) => joined_url(base@, reference@) == Ok::<Seq<char>, Seq<char>>(url@),
            Err(message) => joined_url(base@, reference@) == Err::<Seq<char>, Seq<char>>(message@),
        },
{
    match url::Url::parse(base) {
        Ok(base_url) => match base_url.join(reference) {
            Ok(url) => Ok(String::from(url)),
            Err(error) => Err(error.to_string()),
        },
        Err(error) => Err(error.to_string()),
    }
}

/// Which address a text stands for, or a `UrlParsingError` with the reason
/// why it stands for none.
pub open spec fn address_of(text: Seq<char>) -> Result<Seq<char>, ErrorView> {
    match parsed_url(text) {
        Ok(url) => Ok(url),
        Err(message) => Err(ErrorView::UrlParsingError(message)),
    }
}

/// Which address a reference stands for under a base address, or a
/// `UrlParsingError` with the reason why it stands for none.
pub open spec fn address_under(base: Seq<char>, reference: Seq<char>) -> Result<
    Seq<char>,
    ErrorView,
> {
    match joined_url(base, reference) {
        Ok(url) => Ok(url),
        Err(message) => Err(ErrorView::UrlParsingError(message)),
    }
}

/// Reads a text as an absolute URL and gives the URL in its normal form.
pub fn normalize(text: &str) -> (result: Result<String, Error>)
    ensures
        viewed(result) == address_of(text@),
{
    match parse_url(text) {
        Ok(url) => Ok(url),
        Err(message) => Err(Error::UrlParsingError(message)),
    }
}

/// Resolves a reference, such as a path, against a base URL.
pub fn resolve(base: &str, reference: &str) -> (result: Result<String, Error>)
    ensures
        viewed(result) == address_under(base@, reference@),
{
    match join_url(base, reference) {
        Ok(url) => Ok(url),
        Err(message) => Err(Error::UrlParsingError(message)),
    }
}

/// The number of bytes that a text takes in UTF-8.
pub open spec fn byte_length(text: Seq<char>) -> nat {
    vstd::utf8::encode_utf8(text).len()
}

/// What a run of pairs can add to a URL, in bytes: each name and value up to
/// three times its own bytes, which is what form-encoding makes of a byte at
/// most, and two more for the signs that go with a pair.
pub open spec fn pairs_weight(pairs: Seq<(Seq<char>, Seq<char>)>) -> nat
    decreases pairs.len(),
{
    if pairs.len() == 0 {
        0
    } else {
        pairs_weight(pairs.drop_last()) + 3 * (byte_length(pairs.last().0) + byte_length(
            pairs.last().1,
        )) + 2
    }
}

/// A bound on the bytes of a URL with the pairs appended to its query:
/// sixteen times the bytes of the URL as it is given, which is more than its
/// normal form takes, and the weight of the pairs.
pub open spec fn query_weight(url: Seq<char>, pairs: Seq<(Seq<char>, Seq<char>)>) -> nat {
    16 * byte_length(url) + pairs_weight(pairs)
}

/// The greatest weight of a URL and pairs that are put together here: one
/// gibibyte. The `url` crate keeps positions within a URL in 32 bits and
/// panics where a query begins, or a fragment is put back, beyond them; a
/// URL of this weight stays below.
pub const MAX_QUERY_WEIGHT: usize = 0x4000_0000;

/// What comes of reading `url` with `url::Url::parse` and appending the
/// pairs to its query with `query_pairs_mut().extend_pairs`: the
/// serialization of the URL, each name and value form-encoded, or the
/// message of the error of `parse`.
pub uninterp spec fn url_with_query(url: Seq<char>, pairs: Seq<(Seq<char>, Seq<char>)>) -> Result<
    Seq<char>,
    Seq<char>,
>;

/// The names and values of a run of pairs, as sequences of characters.
pub open spec fn pair_texts(pairs: Seq<(String, String)>) -> Seq<(Seq<char>, Seq<char>)> {
    pairs.map_values(|pair: (String, String)| (pair.0@, pair.1@))
}

/// Calls `url::Url::parse`, then `query_pairs_mut().extend_pairs` with the
/// pairs in their order, and hands back the serialization of the URL, or the
/// display text of the error of `parse`. The contract claims only that the
/// outcome is a function of the URL and the pairs, the one that
/// [`url_with_query`] names. The URL and the pairs together must be light
/// enough for `url` to keep its positions, with the query in place and the
/// fragment, if there is one, behind it.
#[verifier::external_body]
pub(crate) fn append_query(url: &str, pairs: &Vec<(String, String)>) -> (extended: Result<
    String,
    String,
>)
    requires
        query_weight(url@, pair_texts(pairs@)) <= MAX_QUERY_WEIGHT,
    ensures
        match extended {
            Ok(text) => url_with_query(url@, pair_texts(pairs@)) == Ok::<Seq<char>, Seq<char>>(
                text@,
            ),
            Err(message) => url_with_query(url@, pair_texts(pairs@)) == Err::<
                Seq<char>,
                Seq<char>,
            >(message@),
        },
{
    match url::Url::parse(url) {
        Ok(mut parsed) => {
            parsed.query_pairs_mut().extend_pairs(pairs.iter().map(|pair| (&pair.0, &pair.1)));
            Ok(String::from(parsed))
        },
        Err(error) => Err(error.to_string()),
    }
}

/// The error for a URL and pairs that are too heavy to be put together.
pub open spec fn too_long() -> ErrorView {
    ErrorView::UrlParsingError("URL too long"@)
}

/// Which address a URL with the pairs appended to its query stands for. A
/// URL and pairs that together weigh more than [`MAX_QUERY_WEIGHT`] stand for
/// none.
pub open spec fn address_with_query(url: Seq<char>, pairs: Seq<(Seq<char>, Seq<char>)>) -> Result<
    Seq<char>,
    ErrorView,
> {
    if query_weight(url, pairs) > MAX_QUERY_WEIGHT {
        Err(too_long())
    } else {
        match url_with_query(url, pairs) {
            Ok(text) => Ok(text),
            Err(message) => Err(ErrorView::UrlParsingError(message)),
        }
    }
}

/// The first pairs of a run weigh no more than the whole run.
pub proof fn lemma_pairs_weight_grows(pairs: Seq<(Seq<char>, Seq<char>)>, count: int)
    requires
        0 <= count <= pairs.len(),
    ensures
        pairs_weight(pairs.take(count)) <= pairs_weight(pairs),
    decreases pairs.len() - count,
{
    if count == pairs.len() {
        assert(pairs.take(count) =~= pairs);
    } else {
        lemma_pairs_weight_grows(pairs, count + 1);
        assert(pairs.take(count + 1).drop_last() =~= pairs.take(count));
    }
}

/// Whether a URL and pairs are light enough to be put together.
pub fn is_light_enough(url: &str, pairs: &Vec<(String, String)>) -> (light: bool)
    ensures
        light == (query_weight(url@, pair_texts(pairs@)) <= MAX_QUERY_WEIGHT),
{
    let url_bytes = url.as_bytes().len();
    if url_bytes > MAX_QUERY_WEIGHT / 16 {
        return false;
    }
    let ghost all = pair_texts(pairs@);
    let mut weight: usize = 16 * url_bytes;
    let mut at: usize = 0;
    while at < pairs.len()
        invariant
            at <= pairs.len(),
            all == pair_texts(pairs@),
            weight <= MAX_QUERY_WEIGHT,
            weight == 16 * byte_length(url@) + pairs_weight(all.take(at as int)),
        decreases pairs.len() - at,
    {
        let name_bytes = pairs[at].0.as_str().as_bytes().len();
        let value_bytes = pairs[at].1.as_str().as_bytes().len();
        proof {
            assert(all.take(at + 1).drop_last() =~= all.take(at as int));
            assert(all.take(at + 1).last() == (pairs@[at as int].0@, pairs@[at as int].1@));
            lemma_pairs_weight_grows(all, at + 1);
        }
        let room = MAX_QUERY_WEIGHT - weight;
        if room < 2 {
            return false;
        }
        let share = (room - 2) / 3;
        if name_bytes > share || value_bytes > share - name_bytes {
            return false;
        }
        weight = weight + 3 * (name_bytes + value_bytes) + 2;
        at += 1;
    }
    proof {
        assert(all.take(pairs@.len() as int) =~= all);
    }
    true
}

/// Appends pairs of names and values to the query of a URL, form-encoded,
/// in their order. A URL and pairs that together weigh more than
/// [`MAX_QUERY_WEIGHT`] are refused.
pub fn with_query(url: &str, pairs: &Vec<(String, String)>) -> (result: Result<String, Error>)
    ensures
        viewed(result) == address_with_query(url@, pair_texts(pairs@)),
{
    if !is_light_enough(url, pairs) {
        return Err(Error::UrlParsingError("URL too long".to_owned()));
    }
    match append_query(url, pairs) {
        Ok(text) => Ok(text),
        Err(message) => Err(Error::UrlParsingError(message)),
    }
}

} // verus!
