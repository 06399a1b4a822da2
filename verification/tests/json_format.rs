use solana_vanity::jsonfmt::format_json_compact_array;

fn rewrite(s: &str) -> String {
    String::from_utf8(format_json_compact_array(s.as_bytes())).unwrap()
}

#[test]
fn test_compact_array_one_line() {
    let pretty = "{\n  \"public_key\": \"abc\",\n  \"keypair_json\": [\n    1,\n    2,\n    34\n  ],\n  \"n\": 5\n}";
    let expected = "{\n  \"public_key\": \"abc\",\n  \"keypair_json\": [1, 2, 34],\n  \"n\": 5\n}";
    assert_eq!(rewrite(pretty), expected);
}

#[test]
fn test_compact_array_leaves_other_text_alone() {
    // No marker: the text comes back unchanged.
    let text = "{\n  \"statistics\": [\n    1,\n    2\n  ]\n}";
    assert_eq!(rewrite(text), text);
    // Marker but no closing bracket: unchanged as well.
    let open = "\"keypair_json\": [1, 2";
    assert_eq!(rewrite(open), open);
}

#[test]
fn test_compact_array_from_serde_output() {
    // The rewrite applied to real pretty-printed output keeps the document
    // parseable and equal to the original value.
    let nums: Vec<serde_json::Value> = vec![9u64, 8, 7, 250]
        .into_iter()
        .map(serde_json::Value::from)
        .collect();
    let mut inner = serde_json::Map::new();
    inner.insert(String::from("a"), serde_json::Value::from(1u64));
    let mut map = serde_json::Map::new();
    map.insert(String::from("keypair_json"), serde_json::Value::Array(nums));
    map.insert(String::from("other"), serde_json::Value::Object(inner));
    let value = serde_json::Value::Object(map);
    let pretty = serde_json::to_string_pretty(&value).unwrap();
    let compact = rewrite(&pretty);
    assert!(compact.contains("\"keypair_json\": [9, 8, 7, 250]"));
    let reparsed: serde_json::Value = serde_json::from_str(&compact).unwrap();
    assert_eq!(reparsed, value);
}
