use tradier::json::JsonValue;
use tradier::types::{AccountClassification, AccountNumber, AccountStatus, AccountType, EventType};
use tradier::utils::OneOrMany;
use tradier::Error;

#[test]
fn shold_turn_single_item_into_vec_of_size_one() {
    let thing = OneOrMany::One(4);
    assert_eq!(thing.into_vec().len(), 1);
}

#[test]
fn should_turn_many_items_into_vec_with_length_greater_than_one() {
    let things = OneOrMany::Many(vec![1, 2, 3, 4, 5]);

    assert_eq!(things.into_vec().len(), 5);
}

#[test]
fn one_or_many_keeps_items_and_order() {
    assert_eq!(OneOrMany::One("a").into_vec(), vec!["a"]);
    assert_eq!(OneOrMany::Many(vec![3, 1, 2]).into_vec(), vec![3, 1, 2]);
    let none: OneOrMany<u8> = OneOrMany::default();
    assert!(none.into_vec().is_empty());
}

#[test]
fn test_account_number_cannot_be_empty_or_blank() {
    let account_number = "".parse::<AccountNumber>();
    assert!(account_number.is_err());
    let account_number = "     ".parse::<AccountNumber>();
    assert!(account_number.is_err());
}

#[test]
fn account_number_needs_a_printable_character() {
    assert_eq!(AccountNumber::parse("VA000001").unwrap().as_str(), "VA000001");
    assert_eq!(AccountNumber::parse(" 6 ").unwrap().to_string(), " 6 ");
    assert_eq!(
        AccountNumber::parse("\t\n").unwrap_err(),
        Error::AccountIdParseError("\t\n".to_string())
    );
    assert_eq!(
        AccountNumber::parse("\u{1}\u{2}").unwrap_err(),
        Error::AccountIdParseError("\u{1}\u{2}".to_string())
    );
    assert_eq!(
        AccountNumber::parse("\u{2003}\u{3000}\u{a0}").unwrap_err(),
        Error::AccountIdParseError("\u{2003}\u{3000}\u{a0}".to_string())
    );
    assert!(AccountNumber::parse("\u{1} ").is_ok());
    assert!(AccountNumber::parse("\u{7f}").is_err());
    assert!(AccountNumber::parse("~").is_ok());
    assert!(AccountNumber::parse("\u{e9}").is_err());
    assert!(AccountNumber::parse("\u{141}").is_ok());
}

#[test]
fn account_words_round_trip() {
    for account_type in [AccountType::Cash, AccountType::Margin] {
        assert_eq!(AccountType::from_wire(account_type.as_str()), Some(account_type));
    }
    for classification in [
        AccountClassification::Individual,
        AccountClassification::Corporate,
        AccountClassification::Joint,
        AccountClassification::Ira,
        AccountClassification::RothIra,
        AccountClassification::Entity,
    ] {
        assert_eq!(
            AccountClassification::from_wire(classification.as_str()),
            Some(classification)
        );
    }
    for status in [AccountStatus::Active, AccountStatus::Closed] {
        assert_eq!(AccountStatus::from_wire(status.as_str()), Some(status));
    }
    assert_eq!(AccountType::Margin.as_str(), "margin");
    assert_eq!(AccountClassification::RothIra.as_str(), "rothira");
    assert_eq!(AccountStatus::Closed.as_str(), "closed");
    assert_eq!(AccountType::from_wire("Cash"), None);
    assert_eq!(AccountClassification::from_wire("roth_ira"), None);
    assert_eq!(AccountStatus::from_wire(""), None);
}

#[test]
fn event_types_have_lower_case_words() {
    assert_eq!(EventType::Trade.to_string(), "trade");
    assert_eq!(EventType::Option.to_string(), "option");
    assert_eq!(EventType::Ach.to_string(), "ach");
    assert_eq!(EventType::Wire.to_string(), "wire");
    assert_eq!(EventType::Dividend.to_string(), "dividend");
    assert_eq!(EventType::Fee.to_string(), "fee");
    assert_eq!(EventType::Tax.to_string(), "tax");
    assert_eq!(EventType::Journal.to_string(), "journal");
    assert_eq!(EventType::Check.to_string(), "check");
    assert_eq!(EventType::Transfer.to_string(), "transfer");
    assert_eq!(EventType::Adjustment.as_str(), "adjustment");
}

fn items_of(text: &str) -> OneOrMany<JsonValue> {
    let document = JsonValue::parse(text).unwrap();
    match document {
        JsonValue::Object(mut members) => {
            assert_eq!(members.len(), 1);
            let (key, value) = members.remove(0);
            assert_eq!(key, "items");
            OneOrMany::from_json(value)
        }
        other => panic!("expected an object, got {:?}", other),
    }
}

#[test]
fn should_deserialize_correctly() {
    let actual_deserialized = items_of("{\"items\": 5}");
    assert_eq!(actual_deserialized.into_vec().len(), 1);

    let actual_deserialized = items_of("{\"items\": [1, 2, 3]}");
    assert_eq!(actual_deserialized.into_vec().len(), 3);
}

#[test]
fn should_deserialize_empty_correctly() {
    let actual_deserialized = items_of("{\"items\": []}");
    assert!(actual_deserialized.into_vec().is_empty());
}

#[test]
fn one_or_many_from_a_document_keeps_the_items() {
    assert_eq!(
        items_of("{\"items\": [1, \"two\", null]}").into_vec(),
        vec![
            JsonValue::Number("1".to_string()),
            JsonValue::Text("two".to_string()),
            JsonValue::Null
        ]
    );
    assert_eq!(
        items_of("{\"items\": {\"a\": true}}").into_vec(),
        vec![JsonValue::Object(vec![("a".to_string(), JsonValue::Bool(true))])]
    );
}

#[test]
fn documents_are_read_into_plain_values() {
    assert_eq!(JsonValue::parse("null"), Ok(JsonValue::Null));
    assert_eq!(JsonValue::parse(" false "), Ok(JsonValue::Bool(false)));
    assert_eq!(JsonValue::parse("-12"), Ok(JsonValue::Number("-12".to_string())));
    assert_eq!(JsonValue::parse("1.5"), Ok(JsonValue::Number("1.5".to_string())));
    assert_eq!(JsonValue::parse("\"a\\nb\""), Ok(JsonValue::Text("a\nb".to_string())));
    assert_eq!(
        JsonValue::parse("{\"b\": [], \"a\": {\"b\": 1, \"b\": 2}}"),
        Ok(JsonValue::Object(vec![
            (
                "a".to_string(),
                JsonValue::Object(vec![("b".to_string(), JsonValue::Number("2".to_string()))])
            ),
            ("b".to_string(), JsonValue::List(Vec::new())),
        ]))
    );
    assert_eq!(
        JsonValue::parse("{"),
        Err(Error::JsonParsingError(
            "EOF while parsing an object at line 1 column 1".to_string()
        ))
    );
    assert!(JsonValue::parse("nul").is_err());
}
