use gbln_sync::convert::convert_gbln_to_json;
use gbln_sync::convert::plan_conversion;
use gbln_sync::convert::ConvertError;
use gbln_sync::convert::ConvertRoute;
use gbln_sync::value::GblnValue;

#[test]
fn dispatch_recognizes_the_four_routes() {
    assert_eq!(plan_conversion("gbln", "json").unwrap(), ConvertRoute::GblnToJson);
    assert!(matches!(
        plan_conversion("json", "gbln").unwrap_err(),
        ConvertError::JsonToGblnNeedsTypeHints
    ));
    assert!(matches!(
        plan_conversion("gbln", "yaml").unwrap_err(),
        ConvertError::GblnToYamlNotImplemented
    ));
    assert!(matches!(
        plan_conversion("yaml", "gbln").unwrap_err(),
        ConvertError::YamlToGblnNotImplemented
    ));
}

#[test]
fn unsupported_pair_fails_the_same_way_every_time() {
    // The unimplemented pair fails deterministically, whatever else goes on.
    for _ in 0..3 {
        assert!(matches!(
            plan_conversion("gbln", "yaml").unwrap_err(),
            ConvertError::GblnToYamlNotImplemented
        ));
    }
    match plan_conversion("yml", "gbln").unwrap_err() {
        ConvertError::Unsupported { from, to } => {
            assert_eq!(from, "yml");
            assert_eq!(to, "gbln");
        },
        _ => panic!("expected Unsupported"),
    }
    assert!(matches!(
        plan_conversion("unknown", "json").unwrap_err(),
        ConvertError::Unsupported { .. }
    ));
}

#[test]
fn simple_object_renders_as_pretty_json() {
    let v = GblnValue::Object(vec![
        ("name".to_string(), GblnValue::Str("x".to_string())),
        ("count".to_string(), GblnValue::I32(3)),
    ]);
    assert_eq!(convert_gbln_to_json(&v), "{\n  \"name\": \"x\",\n  \"count\": 3\n}");
}

#[test]
fn key_order_and_element_order_are_preserved() {
    let v = GblnValue::Object(vec![
        ("zebra".to_string(), GblnValue::U8(1)),
        ("alpha".to_string(), GblnValue::U8(2)),
    ]);
    assert_eq!(convert_gbln_to_json(&v), "{\n  \"zebra\": 1,\n  \"alpha\": 2\n}");

    let v = GblnValue::Array(vec![
        GblnValue::I8(3),
        GblnValue::I8(1),
        GblnValue::I8(2),
    ]);
    assert_eq!(convert_gbln_to_json(&v), "[\n  3,\n  1,\n  2\n]");
}

#[test]
fn every_integer_width_keeps_its_value() {
    let v = GblnValue::Array(vec![
        GblnValue::I8(-8),
        GblnValue::I16(-1616),
        GblnValue::I32(-323232),
        GblnValue::I64(i64::MIN),
        GblnValue::U8(8),
        GblnValue::U16(1616),
        GblnValue::U32(323232),
        GblnValue::U64(u64::MAX),
    ]);
    assert_eq!(
        convert_gbln_to_json(&v),
        "[\n  -8,\n  -1616,\n  -323232,\n  -9223372036854775808,\n  8,\n  1616,\n  \
         323232,\n  18446744073709551615\n]"
    );
}

#[test]
fn finite_floats_are_numbers_and_non_finite_floats_are_null() {
    // A finite float arrives as its decimal text; NaN and the infinities
    // arrive as None and must come out as JSON null, never as an invalid
    // number.
    let v = GblnValue::Array(vec![
        GblnValue::F64(Some("1.5".to_string())),
        GblnValue::F32(Some("0.25".to_string())),
        GblnValue::F64(None),
        GblnValue::F64(None),
        GblnValue::F32(None),
    ]);
    assert_eq!(convert_gbln_to_json(&v), "[\n  1.5,\n  0.25,\n  null,\n  null,\n  null\n]");
}

#[test]
fn string_contents_are_escaped() {
    let v = GblnValue::Str("say \"hi\"\\now\t\u{1}".to_string());
    assert_eq!(convert_gbln_to_json(&v), "\"say \\\"hi\\\"\\\\now\\t\\u0001\"");
    let v = GblnValue::Object(vec![(
        "line\nbreak".to_string(),
        GblnValue::Str("a\rb".to_string()),
    )]);
    assert_eq!(convert_gbln_to_json(&v), "{\n  \"line\\nbreak\": \"a\\rb\"\n}");
}

#[test]
fn every_variant_kind_converts() {
    // One value containing every variant kind at least once, rendered
    // exactly.
    let v = GblnValue::Object(vec![
        ("i8".to_string(), GblnValue::I8(-1)),
        ("i16".to_string(), GblnValue::I16(-2)),
        ("i32".to_string(), GblnValue::I32(-3)),
        ("i64".to_string(), GblnValue::I64(-4)),
        ("u8".to_string(), GblnValue::U8(1)),
        ("u16".to_string(), GblnValue::U16(2)),
        ("u32".to_string(), GblnValue::U32(3)),
        ("u64".to_string(), GblnValue::U64(4)),
        ("f32".to_string(), GblnValue::F32(Some("0.5".to_string()))),
        ("f64".to_string(), GblnValue::F64(Some("2.75".to_string()))),
        ("nan".to_string(), GblnValue::F64(None)),
        ("s".to_string(), GblnValue::Str("text".to_string())),
        ("b".to_string(), GblnValue::Bool(true)),
        ("n".to_string(), GblnValue::Null),
        (
            "obj".to_string(),
            GblnValue::Object(vec![("k".to_string(), GblnValue::Bool(false))]),
        ),
        (
            "arr".to_string(),
            GblnValue::Array(vec![GblnValue::Str("e".to_string()), GblnValue::Null]),
        ),
    ]);

    let expected = "{\n  \"i8\": -1,\n  \"i16\": -2,\n  \"i32\": -3,\n  \"i64\": -4,\n  \
                    \"u8\": 1,\n  \"u16\": 2,\n  \"u32\": 3,\n  \"u64\": 4,\n  \"f32\": 0.5,\n  \
                    \"f64\": 2.75,\n  \"nan\": null,\n  \"s\": \"text\",\n  \"b\": true,\n  \
                    \"n\": null,\n  \"obj\": {\n    \"k\": false\n  },\n  \"arr\": [\n    \
                    \"e\",\n    null\n  ]\n}";
    assert_eq!(convert_gbln_to_json(&v), expected);
}

#[test]
fn empty_object_and_empty_array() {
    assert_eq!(convert_gbln_to_json(&GblnValue::Object(vec![])), "{}");
    assert_eq!(convert_gbln_to_json(&GblnValue::Array(vec![])), "[]");
}
