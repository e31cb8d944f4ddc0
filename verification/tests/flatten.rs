use mqtt2coap::flatten::{
    coerce, flag_value, flatten_document, flatten_members, handle_msg, make_key, truthy, FlatField,
    ONE, ZERO,
};
use mqtt2coap::json::{read_document, Document, JsonValue, Member};

fn member(name: &str, value: JsonValue) -> Member {
    Member { name: name.to_string(), value }
}

fn number(numeral: &str) -> JsonValue {
    JsonValue::Number(numeral.to_string())
}

fn field(key: &str, value: &str) -> FlatField {
    FlatField { key: key.to_string(), value: value.to_string() }
}

fn sorted(mut fields: Vec<FlatField>) -> Vec<FlatField> {
    fields.sort_by(|a, b| a.key.cmp(&b.key));
    fields
}

/// The readings as numbers, in the order of their keys.
fn readings(fields: Vec<FlatField>) -> Vec<(String, f64)> {
    sorted(fields).into_iter().map(|f| (f.key, f.value.parse::<f64>().unwrap())).collect()
}

fn reading(key: &str, value: f64) -> (String, f64) {
    (key.to_string(), value)
}

#[test]
fn one_and_zero_are_numerals_of_the_numbers() {
    assert_eq!(ONE, "1.0");
    assert_eq!(ZERO, "0.0");
    assert_eq!(ONE.parse::<f64>(), Ok(1.0));
    assert_eq!(ZERO.parse::<f64>(), Ok(0.0));
}

#[test]
fn flag_value_is_one_or_zero() {
    assert_eq!(flag_value(true), ONE);
    assert_eq!(flag_value(false), ZERO);
}

#[test]
fn truthy_accepts_on_one_and_true_in_any_case() {
    for s in ["on", "ON", "On", "oN", "1", "true", "TRUE", "True", "tRuE"] {
        assert!(truthy(s), "{s}");
    }
}

#[test]
fn truthy_rejects_every_other_string() {
    for s in [
        "", "off", "OFF", "0", "false", "toggle", "yes", "o", "onn", " on", "on ", "11", "tru",
        "truee", "ön", "tr\u{fc}e", "\u{212a}", "o\u{6e}\u{300}", "10", "1.0",
    ] {
        assert!(!truthy(s), "{s}");
    }
}

#[test]
fn truthy_agrees_with_ascii_lowercase() {
    for s in ["ON", "oN", "1", "TrUe", "off", "", "Ön", "ＯＮ", "true ", "TRUE"] {
        let expected = matches!(s.to_ascii_lowercase().as_str(), "on" | "1" | "true");
        assert_eq!(truthy(s), expected, "{s}");
    }
}

fn coerced_number(value: JsonValue) -> Option<f64> {
    coerce(&value).map(|numeral| numeral.parse::<f64>().unwrap())
}

#[test]
fn coerce_keeps_a_number_as_it_is() {
    assert_eq!(coerce(&number("21.5")), Some("21.5".to_string()));
    assert_eq!(coerce(&number("-0.25")), Some("-0.25".to_string()));
    assert_eq!(coerce(&number("0")), Some("0".to_string()));
    assert_eq!(coerced_number(number("87")), Some(87.0));
}

#[test]
fn coerce_reads_a_boolean_as_one_or_zero() {
    assert_eq!(coerce(&JsonValue::Bool(true)), Some("1.0".to_string()));
    assert_eq!(coerce(&JsonValue::Bool(false)), Some("0.0".to_string()));
    assert_eq!(coerced_number(JsonValue::Bool(true)), Some(1.0));
    assert_eq!(coerced_number(JsonValue::Bool(false)), Some(0.0));
}

#[test]
fn coerce_reads_a_string_as_one_or_zero() {
    assert_eq!(coerced_number(JsonValue::Text("ON".to_string())), Some(1.0));
    assert_eq!(coerced_number(JsonValue::Text("true".to_string())), Some(1.0));
    assert_eq!(coerced_number(JsonValue::Text("1".to_string())), Some(1.0));
    assert_eq!(coerced_number(JsonValue::Text("off".to_string())), Some(0.0));
    assert_eq!(coerced_number(JsonValue::Text("toggle".to_string())), Some(0.0));
    assert_eq!(coerced_number(JsonValue::Text("21.5".to_string())), Some(0.0));
    assert_eq!(coerced_number(JsonValue::Text(String::new())), Some(0.0));
    assert_eq!(coerce(&JsonValue::Text("On".to_string())), Some(ONE.to_string()));
    assert_eq!(coerce(&JsonValue::Text("no".to_string())), Some(ZERO.to_string()));
}

#[test]
fn coerce_has_no_reading_for_other_values() {
    assert_eq!(coerce(&JsonValue::Other), None);
}

#[test]
fn make_key_joins_with_a_slash() {
    assert_eq!(make_key("sensor1", "temperature"), "sensor1/temperature");
    assert_eq!(make_key("", "x"), "/x");
    assert_eq!(make_key("a/b", ""), "a/b/");
}

#[test]
fn flatten_members_yields_one_field_per_scalar_member() {
    let members = vec![
        member("n", number("2.5")),
        member("t", JsonValue::Bool(true)),
        member("f", JsonValue::Bool(false)),
        member("s", JsonValue::Text("On".to_string())),
        member("u", JsonValue::Text("whatever".to_string())),
    ];
    assert_eq!(
        flatten_members("ns", &members),
        vec![
            field("ns/n", "2.5"),
            field("ns/t", "1.0"),
            field("ns/f", "0.0"),
            field("ns/s", "1.0"),
            field("ns/u", "0.0"),
        ]
    );
}

#[test]
fn flatten_members_skips_what_has_no_reading() {
    let members = vec![
        member("a", JsonValue::Other),
        member("b", number("1.5")),
        member("c", JsonValue::Other),
        member("d", JsonValue::Bool(true)),
    ];
    let fields = flatten_members("ns", &members);
    assert_eq!(fields, vec![field("ns/b", "1.5"), field("ns/d", "1.0")]);
    assert!(fields.len() <= members.len());
}

#[test]
fn flatten_members_of_nothing_is_nothing() {
    assert_eq!(flatten_members("ns", &Vec::new()), Vec::new());
    assert_eq!(flatten_members("ns", &vec![member("a", JsonValue::Other)]), Vec::new());
}

#[test]
fn flatten_members_reads_members_one_by_one() {
    let front = vec![member("a", JsonValue::Bool(true)), member("b", JsonValue::Other)];
    let back = vec![member("c", number("7"))];
    let mut all = front.clone();
    all.extend(back.clone());
    let mut expected = flatten_members("ns", &front);
    expected.extend(flatten_members("ns", &back));
    assert_eq!(flatten_members("ns", &all), expected);
}

#[test]
fn flatten_document_without_an_object_is_empty() {
    assert_eq!(flatten_document("ns", &Document::Invalid), Vec::new());
    assert_eq!(flatten_document("ns", &Document::NotObject), Vec::new());
    assert_eq!(flatten_document("ns", &Document::Object(Vec::new())), Vec::new());
}

#[test]
fn flatten_document_flattens_the_members() {
    let doc = Document::Object(vec![member("x", JsonValue::Bool(true))]);
    assert_eq!(flatten_document("ns", &doc), vec![field("ns/x", "1.0")]);
}

#[test]
fn scenario_temperature_and_battery() {
    let fields = handle_msg("zigbee2mqtt/sensor1", br#"{"temperature": 21.5, "battery": 87}"#);
    assert_eq!(
        readings(fields),
        vec![reading("sensor1/battery", 87.0), reading("sensor1/temperature", 21.5)]
    );
}

#[test]
fn scenario_state_on_and_linkquality() {
    let fields = handle_msg("zigbee2mqtt/lamp", br#"{"state": "ON", "linkquality": 255}"#);
    assert_eq!(
        readings(fields),
        vec![reading("lamp/linkquality", 255.0), reading("lamp/state", 1.0)]
    );
}

#[test]
fn scenario_unrecognized_string_is_zero() {
    let fields = handle_msg("zigbee2mqtt/lamp", br#"{"state": "toggle"}"#);
    assert_eq!(readings(fields), vec![reading("lamp/state", 0.0)]);
}

#[test]
fn scenario_malformed_payload_yields_nothing() {
    assert_eq!(handle_msg("zigbee2mqtt/sensor1", b"not json"), Vec::new());
    assert_eq!(read_document(b"not json"), Document::Invalid);
}

#[test]
fn payloads_that_fail_to_parse_yield_nothing() {
    for payload in [
        &b""[..], b"{", b"{\"a\": }", b"{\"a\": 1,}", b"{'a': 1}", b"{\"a\": 1} x", b"\xff\xfe",
        b"{\"a\": 1e999}", b"{\"a\": NaN}", b"nul",
    ] {
        assert_eq!(read_document(payload), Document::Invalid);
        assert_eq!(handle_msg("p/n", payload), Vec::new());
    }
}

#[test]
fn payloads_that_are_no_object_yield_nothing() {
    for payload in [&b"[1, 2]"[..], b"42", b"\"on\"", b"true", b"null", b"[{\"a\": 1}]"] {
        assert_eq!(read_document(payload), Document::NotObject);
        assert_eq!(handle_msg("p/n", payload), Vec::new());
    }
}

#[test]
fn an_empty_object_yields_nothing() {
    assert_eq!(read_document(b"{}"), Document::Object(Vec::new()));
    assert_eq!(handle_msg("p/n", b" { } "), Vec::new());
}

#[test]
fn every_kind_of_member_is_read_by_the_table() {
    let payload = br#"{
        "int": 87, "neg": -5, "float": 21.5, "exp": 1e3, "big": 18446744073709551615,
        "yes": true, "no": false,
        "on": "oN", "one": "1", "true": "TRUE", "off": "off", "text": "21.5",
        "null": null, "array": [1, 2], "object": {"nested": 1}
    }"#;
    let mut expected = vec![
        reading("dev/int", 87.0),
        reading("dev/neg", -5.0),
        reading("dev/float", 21.5),
        reading("dev/exp", 1000.0),
        reading("dev/big", 18446744073709551615u64 as f64),
        reading("dev/yes", 1.0),
        reading("dev/no", 0.0),
        reading("dev/on", 1.0),
        reading("dev/one", 1.0),
        reading("dev/true", 1.0),
        reading("dev/off", 0.0),
        reading("dev/text", 0.0),
    ];
    expected.sort_by(|a, b| a.0.cmp(&b.0));
    assert_eq!(readings(handle_msg("zigbee2mqtt/dev", payload)), expected);
}

#[test]
fn read_document_hands_out_each_member() {
    let doc = read_document(br#"{"a": 1.5, "b": true, "c": "x", "d": null, "e": [], "f": {}}"#);
    let Document::Object(mut members) = doc else { panic!("no object") };
    members.sort_by(|x, y| x.name.cmp(&y.name));
    assert_eq!(
        members,
        vec![
            member("a", number("1.5")),
            member("b", JsonValue::Bool(true)),
            member("c", JsonValue::Text("x".to_string())),
            member("d", JsonValue::Other),
            member("e", JsonValue::Other),
            member("f", JsonValue::Other),
        ]
    );
}

#[test]
fn read_document_replaces_invalid_utf8() {
    let doc = read_document(b"{\"a\": \"o\xffn\", \"b\": \"on\"}");
    let Document::Object(mut members) = doc else { panic!("no object") };
    members.sort_by(|x, y| x.name.cmp(&y.name));
    assert_eq!(
        members,
        vec![
            member("a", JsonValue::Text("o\u{fffd}n".to_string())),
            member("b", JsonValue::Text("on".to_string())),
        ]
    );
    let fields = sorted(handle_msg("x/y", b"{\"a\": \"o\xffn\", \"b\": \"on\"}"));
    assert_eq!(fields, vec![field("y/a", "0.0"), field("y/b", "1.0")]);
}

#[test]
fn a_repeated_name_is_read_once() {
    let fields = handle_msg("x/y", br#"{"a": 1, "a": 2}"#);
    assert_eq!(readings(fields), vec![reading("y/a", 2.0)]);
}

#[test]
fn member_names_are_kept_as_they_are() {
    let fields = handle_msg("x/y", "{\"lämpö\": 1, \"a/b\": 2, \"\": 3}".as_bytes());
    assert_eq!(
        readings(fields),
        vec![reading("y/", 3.0), reading("y/a/b", 2.0), reading("y/lämpö", 1.0)]
    );
}

#[test]
fn a_topic_without_delimiter_is_the_namespace() {
    assert_eq!(handle_msg("sensor1", br#"{"t": 1}"#), vec![field("sensor1/t", "1")]);
}

#[test]
fn no_more_fields_than_members() {
    for (payload, members) in [
        (&br#"{"a": 1, "b": null, "c": "x"}"#[..], 3usize),
        (br#"{"a": [], "b": {}}"#, 2),
        (br#"{}"#, 0),
        (br#"{"a": true}"#, 1),
    ] {
        assert!(handle_msg("x/y", payload).len() <= members);
    }
}

#[test]
fn a_number_is_handed_on_as_the_parser_writes_it() {
    let fields = sorted(handle_msg("x/y", br#"{"a": 21.5, "b": 87, "c": -5, "d": 0.1}"#));
    assert_eq!(
        fields,
        vec![field("y/a", "21.5"), field("y/b", "87"), field("y/c", "-5"), field("y/d", "0.1")]
    );
}

#[test]
fn a_number_read_back_is_the_number_in_the_payload() {
    for x in [0.0, 21.5, -5.0, 0.1, 1e21, 1.7976931348623157e308, 5e-324, 123456789.125, -0.0] {
        let x: f64 = x;
        let payload = format!("{{\"v\": {x:e}}}");
        let fields = handle_msg("x/y", payload.as_bytes());
        assert_eq!(fields.len(), 1, "{payload}");
        let back = fields[0].value.parse::<f64>().unwrap();
        assert_eq!(back.to_bits(), x.to_bits(), "{payload}");
    }
    for n in [0u64, 1, 87, 255, 9007199254740993, u64::MAX] {
        let fields = handle_msg("x/y", format!("{{\"v\": {n}}}").as_bytes());
        assert_eq!(fields[0].value.parse::<f64>().unwrap(), n as f64);
    }
    for n in [-1i64, -87, i64::MIN] {
        let fields = handle_msg("x/y", format!("{{\"v\": {n}}}").as_bytes());
        assert_eq!(fields[0].value.parse::<f64>().unwrap(), n as f64);
    }
}
