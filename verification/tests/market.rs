use tradier::json::JsonValue;
use tradier::wssession::payload::render_filters;
use tradier::wssession::{MarketSessionFilter, MarketSessionPayload};
use tradier::Error;

#[test]
fn test_market_session_filter_as_ref() {
    assert_eq!(MarketSessionFilter::TRADE.as_ref(), "trade");
    assert_eq!(MarketSessionFilter::QUOTE.as_ref(), "quote");
    assert_eq!(MarketSessionFilter::SUMMARY.as_ref(), "summary");
    assert_eq!(MarketSessionFilter::TIMESALE.as_ref(), "timesale");
    assert_eq!(MarketSessionFilter::TRADEX.as_ref(), "tradex");
}

#[test]
fn test_market_session_filter_try_from_str() {
    assert_eq!(
        MarketSessionFilter::try_from("trade").unwrap(),
        MarketSessionFilter::TRADE
    );
    assert_eq!(
        MarketSessionFilter::try_from("quote").unwrap(),
        MarketSessionFilter::QUOTE
    );

    let invalid_result = MarketSessionFilter::try_from("invalid");
    assert!(invalid_result.is_err());
}

#[test]
fn test_market_session_filter_from() {
    let filter = MarketSessionFilter::TRADE;
    let filter_str: String = filter.into();
    assert_eq!(filter_str, "trade");
}

#[test]
fn test_market_session_payload_recommended() {
    let symbols = vec!["AAPL".to_string(), "TSLA".to_string()];
    let session_id = "test-session-id".to_string();

    let payload = MarketSessionPayload::recommended(&symbols, &session_id);

    assert_eq!(payload.symbols, symbols);
    assert_eq!(
        payload.filters.as_deref(),
        Some(&[MarketSessionFilter::QUOTE][..])
    );
    assert_eq!(payload.session_id, session_id);
    assert_eq!(payload.linebreak, Some(true));
    assert_eq!(payload.valid_only, Some(false));
    assert_eq!(payload.advanced_details, Some(false));
}

#[test]
fn test_market_session_payload_get_message_full_payload() {
    let symbols = ["AAPL".to_string(), "GOOGL".to_string()];
    let filters = vec![MarketSessionFilter::TRADE, MarketSessionFilter::SUMMARY];
    let session_id = "session-12345";

    let payload = MarketSessionPayload::builder()
        .symbols(&symbols)
        .filters(&filters)
        .session_id(session_id)
        .linebreak(true)
        .valid_only(false)
        .advanced_details(true)
        .build();

    let message_result = payload.get_message();
    assert!(
        message_result.is_ok(),
        "Expected message creation to succeed"
    );

    let serialized = message_result.unwrap();
    assert!(serialized.contains("\"symbols\":[\"AAPL\",\"GOOGL\"]"));
    assert!(serialized.contains("\"filters\":[\"trade\",\"summary\"]"));
    assert!(serialized.contains("\"sessionid\":\"session-12345\""));
    assert!(serialized.contains("\"linebreak\":true"));
    assert!(serialized.contains("\"validOnly\":false"));
    assert!(serialized.contains("\"advancedDetails\":true"));
}

#[test]
fn test_market_session_payload_display() {
    let symbols = ["AAPL".to_string(), "MSFT".to_string()];
    let payload = MarketSessionPayload::builder()
        .symbols(&symbols)
        .filters(&[MarketSessionFilter::TRADE, MarketSessionFilter::QUOTE])
        .session_id("display-session")
        .advanced_details(true)
        .build();

    let display_output = format!("{}", payload.to_string());
    assert!(display_output.contains("symbols: [\"AAPL\", \"MSFT\"]"));
    assert!(display_output.contains("filter: [\"trade\", \"quote\"]"));
    assert!(display_output.contains("session_id: display-session"));
    assert!(display_output.contains("linebreak: None"));
    assert!(display_output.contains("valid_only: None"));
    assert!(display_output.contains("advanced_details: true"));
}

#[test]
fn test_market_session_filter_invalid_input() {
    let invalid_filters = vec!["invalid", "unknown", "random"];

    for invalid_filter in invalid_filters {
        let result = MarketSessionFilter::try_from(invalid_filter);
        assert!(
            result.is_err(),
            "Expected error for invalid filter '{}', but got {:?}",
            invalid_filter,
            result
        );

        if let Err(Error::UnsupportedMarketFilter(filter)) = result {
            assert_eq!(filter, invalid_filter.to_owned());
        } else {
            panic!(
                "Expected UnsupportedMarketFilter error, but got {:?}",
                result
            );
        }
    }
}

#[test]
fn filter_tokens_round_trip() {
    let all = [
        MarketSessionFilter::TRADE,
        MarketSessionFilter::QUOTE,
        MarketSessionFilter::SUMMARY,
        MarketSessionFilter::TIMESALE,
        MarketSessionFilter::TRADEX,
    ];
    for filter in all {
        assert_eq!(MarketSessionFilter::try_from(filter.as_ref()), Ok(filter));
        let token: String = filter.into();
        assert_eq!(MarketSessionFilter::try_from(token.as_str()), Ok(filter));
    }
}

#[test]
fn unknown_filter_is_reported_with_its_token() {
    assert_eq!(
        MarketSessionFilter::try_from("bogus"),
        Err(Error::UnsupportedMarketFilter("bogus".to_string()))
    );
    assert_eq!(
        MarketSessionFilter::try_from(""),
        Err(Error::UnsupportedMarketFilter(String::new()))
    );
    assert_eq!(
        MarketSessionFilter::try_from("TRADE"),
        Err(Error::UnsupportedMarketFilter("TRADE".to_string()))
    );
    assert_eq!(
        MarketSessionFilter::try_from("trade "),
        Err(Error::UnsupportedMarketFilter("trade ".to_string()))
    );
}

#[test]
fn full_message_is_exact() {
    let symbols = ["AAPL".to_string(), "GOOGL".to_string()];
    let filters = [MarketSessionFilter::TRADE, MarketSessionFilter::SUMMARY];
    let payload = MarketSessionPayload::new(
        &symbols,
        Some(&filters),
        "session-12345",
        Some(true),
        Some(false),
        Some(true),
    );
    assert_eq!(
        payload.get_message().unwrap(),
        "{\"symbols\":[\"AAPL\",\"GOOGL\"],\"filters\":[\"trade\",\"summary\"],\"sessionid\":\"session-12345\",\"linebreak\":true,\"validOnly\":false,\"advancedDetails\":true}"
    );
}

#[test]
fn unset_settings_are_left_out_of_the_message() {
    let symbols = ["AAPL".to_string(), "C".to_string()];
    let payload = MarketSessionPayload::builder()
        .session_id("c8638963-a6d4-4fb9-9bc6-e25fbd8c60c3")
        .symbols(&symbols)
        .build();
    let message = payload.get_message().unwrap();
    assert_eq!(
        message,
        "{\"symbols\":[\"AAPL\",\"C\"],\"sessionid\":\"c8638963-a6d4-4fb9-9bc6-e25fbd8c60c3\"}"
    );
    assert!(!message.contains("linebreak"));
    assert!(!message.contains("null"));

    let with_flag = MarketSessionPayload::new(&symbols, None, "s", None, Some(true), None);
    assert_eq!(
        with_flag.get_message().unwrap(),
        "{\"symbols\":[\"AAPL\",\"C\"],\"sessionid\":\"s\",\"validOnly\":true}"
    );
}

#[test]
fn message_escapes_what_json_must_escape() {
    let symbols = ["A\"B".to_string(), "C\\D".to_string(), "line\nbreak".to_string()];
    let payload = MarketSessionPayload::new(&symbols, None, "tab\there", None, None, None);
    assert_eq!(
        payload.get_message().unwrap(),
        "{\"symbols\":[\"A\\\"B\",\"C\\\\D\",\"line\\nbreak\"],\"sessionid\":\"tab\\there\"}"
    );
}

#[test]
fn message_with_no_symbols_and_no_filters() {
    let symbols: [String; 0] = [];
    let filters: [MarketSessionFilter; 0] = [];
    let payload = MarketSessionPayload::new(&symbols, Some(&filters), "id", None, None, None);
    assert_eq!(
        payload.get_message().unwrap(),
        "{\"symbols\":[],\"filters\":[],\"sessionid\":\"id\"}"
    );
}

#[test]
fn assemble_frames_the_given_literals() {
    let symbols = ["ignored".to_string()];
    let payload = MarketSessionPayload::new(&symbols, None, "ignored", Some(false), None, None);
    let literals = vec!["1".to_string(), "2".to_string()];
    assert_eq!(
        payload.assemble(&literals, "3"),
        "{\"symbols\":[1,2],\"sessionid\":3,\"linebreak\":false}"
    );
}

#[test]
fn recommended_payload_on_the_wire() {
    let symbols = vec!["AAPL".to_string()];
    let payload = MarketSessionPayload::recommended(&symbols, "abc");
    assert_eq!(
        payload.get_message().unwrap(),
        "{\"symbols\":[\"AAPL\"],\"filters\":[\"quote\"],\"sessionid\":\"abc\",\"linebreak\":true,\"validOnly\":false,\"advancedDetails\":false}"
    );
}

#[test]
fn payload_display_is_exact() {
    let symbols = ["AAPL".to_string(), "a\"b".to_string()];
    let payload = MarketSessionPayload::new(
        &symbols,
        Some(&[MarketSessionFilter::TIMESALE]),
        "sid",
        Some(false),
        None,
        Some(true),
    );
    assert_eq!(
        payload.to_string(),
        "MarketSessionPayload { symbols: [\"AAPL\", \"a\\\"b\"], filter: [\"timesale\"], session_id: sid, linebreak: false, valid_only: None, advanced_details: true }"
    );
    let bare = MarketSessionPayload::new(&symbols[..0], None, "", None, None, None);
    assert_eq!(
        bare.to_string(),
        "MarketSessionPayload { symbols: [], filter: [], session_id: , linebreak: None, valid_only: None, advanced_details: None }"
    );
}

#[test]
fn payload_clone_keeps_every_setting() {
    let symbols = vec!["AAPL".to_string()];
    let payload = MarketSessionPayload::recommended(&symbols, "abc");
    let copy = payload.clone();
    assert_eq!(copy.get_message().unwrap(), payload.get_message().unwrap());
    assert_eq!(copy.symbols(), payload.symbols());
    assert_eq!(copy.filters(), Some(&[MarketSessionFilter::QUOTE][..]));
    assert_eq!(copy.session_id(), "abc");
}

#[test]
fn test_market_session_filter_serde_serialization() {
    let filter = MarketSessionFilter::TRADE;
    let json = render_filters(&[filter]).remove(0);
    assert_eq!(json, "\"trade\"");

    let document = JsonValue::parse(&json).unwrap();
    let deserialized = MarketSessionFilter::try_from(document.as_text().unwrap()).unwrap();
    assert_eq!(deserialized, MarketSessionFilter::TRADE);
}

#[test]
fn control_characters_are_escaped_as_json_has_it() {
    let symbols = [
        "\u{0}\u{1}\u{7}".to_string(),
        "\u{8}\u{9}\u{a}\u{b}\u{c}\u{d}".to_string(),
        "\u{e}\u{1e}\u{1f} !".to_string(),
        "\u{7f}\u{80}é/'<>&".to_string(),
    ];
    let payload = MarketSessionPayload::new(&symbols, None, "\"\\", None, None, None);
    assert_eq!(
        payload.get_message().unwrap(),
        "{\"symbols\":[\"\\u0000\\u0001\\u0007\",\"\\b\\t\\n\\u000b\\f\\r\",\"\\u000e\\u001e\\u001f !\",\"\u{7f}\u{80}é/'<>&\"],\"sessionid\":\"\\\"\\\\\"}"
    );
}
