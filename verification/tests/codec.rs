//! The structured-text codec: exact output, round trips, and agreement
//! with an independent JSON parser.

use oxide_cli::json::{decode_records, encode_record, encode_records};
use oxide_cli::record::ResourceRecord;

fn disk(name: &str, size: i64, created: Option<i64>, modified: Option<i64>) -> ResourceRecord {
    ResourceRecord {
        id: format!("id-{}", name),
        name: name.to_string(),
        description: format!("{} description", name),
        state: "detached".to_string(),
        device_path: format!("/dev/{}", name),
        size,
        snapshot_id: String::new(),
        time_created: created,
        time_modified: modified,
    }
}

#[test]
fn encode_one_record_exactly() {
    let r = ResourceRecord {
        id: "abc".to_string(),
        name: "d1".to_string(),
        description: "first".to_string(),
        state: "attached".to_string(),
        device_path: "/dev/sda".to_string(),
        size: 1024,
        snapshot_id: "snap".to_string(),
        time_created: Some(100),
        time_modified: None,
    };
    assert_eq!(
        encode_record(&r),
        "{\"id\":\"abc\",\"name\":\"d1\",\"description\":\"first\",\"state\":\"attached\",\
         \"device_path\":\"/dev/sda\",\"size\":1024,\"snapshot_id\":\"snap\",\
         \"time_created\":100,\"time_modified\":null}"
    );
}

#[test]
fn encode_empty_collection() {
    assert_eq!(encode_records(&Vec::new()), "[]");
}

#[test]
fn decode_empty_collection() {
    let out = decode_records("[]").expect("empty collection decodes");
    assert_eq!(out.len(), 0);
}

#[test]
fn three_records_round_trip() {
    let rs = vec![
        disk("d1", 10, Some(100), Some(200)),
        disk("d2", -1, None, None),
        disk("d3", i64::MAX, Some(i64::MIN), Some(0)),
    ];
    let text = encode_records(&rs);
    let back = decode_records(&text).expect("encoded text decodes");
    assert_eq!(back.len(), 3);
    for (a, b) in rs.iter().zip(back.iter()) {
        assert_eq!(a.id, b.id);
        assert_eq!(a.name, b.name);
        assert_eq!(a.description, b.description);
        assert_eq!(a.state, b.state);
        assert_eq!(a.device_path, b.device_path);
        assert_eq!(a.size, b.size);
        assert_eq!(a.snapshot_id, b.snapshot_id);
        assert_eq!(a.time_created, b.time_created);
        assert_eq!(a.time_modified, b.time_modified);
    }
}

#[test]
fn escaped_characters_round_trip() {
    let mut r = disk("dq", 1, None, None);
    r.description = "say \"hi\" to C:\\disk".to_string();
    r.name = "\\\"".to_string();
    let text = encode_records(&vec![r.clone()]);
    let back = decode_records(&text).expect("escaped text decodes");
    assert_eq!(back[0].description, r.description);
    assert_eq!(back[0].name, r.name);
}

#[test]
fn encoded_text_is_real_json() {
    let rs = vec![disk("d1", 7, Some(5), None), disk("d2", 8, None, Some(9))];
    let text = encode_records(&rs);
    let v: serde_json::Value = serde_json::from_str(&text).expect("valid JSON");
    let arr = v.as_array().expect("an array");
    assert_eq!(arr.len(), 2);
    assert_eq!(arr[0]["name"], "d1");
    assert_eq!(arr[0]["size"], 7);
    assert_eq!(arr[0]["time_created"], 5);
    assert!(arr[0]["time_modified"].is_null());
    assert_eq!(arr[1]["device_path"], "/dev/d2");
    assert_eq!(arr[1]["time_modified"], 9);
}

#[test]
fn trailing_text_is_rejected() {
    let text = encode_records(&vec![disk("d1", 1, None, None)]);
    assert!(decode_records(&format!("{} ", text)).is_none());
    assert!(decode_records("").is_none());
    assert!(decode_records("[").is_none());
}

#[test]
fn unicode_fields_round_trip() {
    let mut r = disk("dê", 3, Some(1), None);
    r.description = "àéîöü — диск 🚀".to_string();
    let text = encode_records(&vec![r.clone()]);
    let back = decode_records(&text).expect("unicode text decodes");
    assert_eq!(back[0].name, "dê");
    assert_eq!(back[0].description, "àéîöü — диск 🚀");
    let v: serde_json::Value = serde_json::from_str(&text).expect("valid JSON");
    assert_eq!(v[0]["description"], "àéîöü — диск 🚀");
}

#[test]
fn single_record_round_trip() {
    let r = disk("d9", 77, Some(5), None);
    let text = oxide_cli::json::encode_record(&r);
    let back = oxide_cli::json::decode_record(&text).expect("encoded object decodes");
    assert_eq!(back.name, "d9");
    assert_eq!(back.size, 77);
    assert_eq!(back.time_created, Some(5));
    assert!(oxide_cli::json::decode_record(&format!("{}x", text)).is_none());
}
