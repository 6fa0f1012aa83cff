use transaction_pool::error::LoadError;
use transaction_pool::reader::{read_block_data_json, record_from_parsed, record_of};
use transaction_pool::record::Record;

#[test]
fn reads_scalars_and_containers() {
    let record =
        read_block_data_json("{\"b\": [1, -2, 1.5, \"x\", null, true], \"a\": {}}").unwrap();
    let expected = Record::Object(vec![
        ("a".to_string(), Record::Object(vec![])),
        (
            "b".to_string(),
            Record::List(vec![
                Record::Integer(1),
                Record::OtherNumber,
                Record::OtherNumber,
                Record::Text("x".to_string()),
                Record::Null,
                Record::Bool(true),
            ]),
        ),
    ]);
    assert_eq!(record, expected);
}

#[test]
fn reads_the_bounds_of_integers() {
    assert_eq!(read_block_data_json("0"), Ok(Record::Integer(0)));
    assert_eq!(read_block_data_json("255"), Ok(Record::Integer(255)));
    assert_eq!(read_block_data_json("18446744073709551615"), Ok(Record::Integer(u64::MAX)));
    assert_eq!(read_block_data_json("18446744073709551616"), Ok(Record::OtherNumber));
    assert_eq!(read_block_data_json("-1"), Ok(Record::OtherNumber));
    assert_eq!(read_block_data_json("1.0"), Ok(Record::OtherNumber));
    assert_eq!(read_block_data_json("1e2"), Ok(Record::OtherNumber));
}

#[test]
fn reads_leaves_on_their_own() {
    assert_eq!(read_block_data_json("null"), Ok(Record::Null));
    assert_eq!(read_block_data_json("false"), Ok(Record::Bool(false)));
    assert_eq!(read_block_data_json("\"a\\nb\""), Ok(Record::Text("a\nb".to_string())));
    assert_eq!(read_block_data_json(" [ ] "), Ok(Record::List(vec![])));
}

#[test]
fn reads_nested_values_in_place() {
    let record = read_block_data_json("[[1, [2]], {\"k\": [{\"n\": 3}]}]").unwrap();
    let expected = Record::List(vec![
        Record::List(vec![Record::Integer(1), Record::List(vec![Record::Integer(2)])]),
        Record::Object(vec![(
            "k".to_string(),
            Record::List(vec![Record::Object(vec![("n".to_string(), Record::Integer(3))])]),
        )]),
    ]);
    assert_eq!(record, expected);
}

#[test]
fn keeps_the_last_of_two_fields_of_one_name() {
    let record = read_block_data_json("{\"a\": 1, \"a\": 2}").unwrap();
    assert_eq!(record.get("a"), Some(&Record::Integer(2)));
}

#[test]
fn rejects_text_that_is_not_json() {
    assert_eq!(read_block_data_json(""), Err(LoadError::Parse));
    assert_eq!(read_block_data_json("{\"a\": "), Err(LoadError::Parse));
    assert_eq!(read_block_data_json("[1, 2,]"), Err(LoadError::Parse));
    assert_eq!(read_block_data_json("{} {}"), Err(LoadError::Parse));
    assert_eq!(read_block_data_json("not json"), Err(LoadError::Parse));
    assert_eq!(read_block_data_json("{'a': 1}"), Err(LoadError::Parse));
}

#[test]
fn record_of_copies_a_parsed_value() {
    let mut inner = serde_json::Map::new();
    inner.insert("z".to_string(), serde_json::Value::from(7u64));
    inner.insert("a".to_string(), serde_json::Value::from(-7i64));
    let value = serde_json::Value::Array(vec![
        serde_json::Value::Null,
        serde_json::Value::Bool(false),
        serde_json::Value::from(256u64),
        serde_json::Value::from("text"),
        serde_json::Value::Object(inner),
    ]);
    let expected = Record::List(vec![
        Record::Null,
        Record::Bool(false),
        Record::Integer(256),
        Record::Text("text".to_string()),
        Record::Object(vec![
            ("a".to_string(), Record::OtherNumber),
            ("z".to_string(), Record::Integer(7)),
        ]),
    ]);
    assert_eq!(record_of(&value), expected);
}

#[test]
fn record_from_parsed_takes_the_value_or_gives_a_parse_error() {
    let value = serde_json::Value::Array(vec![serde_json::Value::from(1u64)]);
    assert_eq!(record_from_parsed(Ok(value)), Ok(Record::List(vec![Record::Integer(1)])));
    let failure = serde_json::from_str::<serde_json::Value>("{").unwrap_err();
    assert_eq!(record_from_parsed(Err(failure)), Err(LoadError::Parse));
}
