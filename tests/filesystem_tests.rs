use e2b::models::{ReadResult, WriteData, WriteEntry};

#[test]
fn test_write_entry_text() {
    let entry = WriteEntry::text("/tmp/test.txt", "Hello, World!");

    assert_eq!(entry.path, "/tmp/test.txt");
    match entry.data {
        WriteData::Text(content) => assert_eq!(content, "Hello, World!"),
        WriteData::Binary(_) => panic!("Expected text data"),
    }
}

#[test]
fn test_write_entry_binary() {
    let data = vec![0x48, 0x65, 0x6c, 0x6c, 0x6f]; // "Hello"
    let entry = WriteEntry::binary("/tmp/test.bin", data.clone());

    assert_eq!(entry.path, "/tmp/test.bin");
    match entry.data {
        WriteData::Binary(content) => assert_eq!(content, data),
        WriteData::Text(_) => panic!("Expected binary data"),
    }
}

#[test]
fn test_read_result_text() {
    let result = ReadResult::Text("Hello, World!".to_string());

    match result {
        ReadResult::Text(content) => assert_eq!(content, "Hello, World!"),
        ReadResult::Binary(_) => panic!("Expected text result"),
    }
}

#[test]
fn test_read_result_binary() {
    let data = vec![0x48, 0x65, 0x6c, 0x6c, 0x6f]; // "Hello"
    let result = ReadResult::Binary(data.clone());

    match result {
        ReadResult::Binary(content) => assert_eq!(content, data),
        ReadResult::Text(_) => panic!("Expected binary result"),
    }
}

use e2b::files::{content_and_format, decode_binary_content, write_info_from};
use e2b::json::JsonValue;

#[test]
fn write_content_is_text_or_base64() {
    let (content, format) = content_and_format(WriteData::Text("plain".to_string()));
    assert_eq!(content, "plain");
    assert_eq!(format, "text");
    let (content, format) = content_and_format(WriteData::Binary(vec![0x48, 0x69]));
    assert_eq!(content, "SGk=");
    assert_eq!(format, "binary");
}

#[test]
fn binary_content_is_decoded() {
    assert_eq!(decode_binary_content("SGk=").unwrap(), vec![0x48, 0x69]);
    assert!(matches!(decode_binary_content("??"), Err(e2b::Error::Api { status: 500, .. })));
}

#[test]
fn write_report_needs_path_and_size() {
    let report = JsonValue::Object(vec![
        ("path".to_string(), JsonValue::Str("/tmp/a.txt".to_string())),
        ("size".to_string(), JsonValue::Integer(12)),
        ("name".to_string(), JsonValue::Str("a.txt".to_string())),
    ]);
    let info = write_info_from(&report).unwrap();
    assert_eq!(info.path, "/tmp/a.txt");
    assert_eq!(info.name, "a.txt");
    assert_eq!(info.size, Some(12));
    assert!(info.entry_type.is_none());
    let no_size = JsonValue::Object(vec![("path".to_string(), JsonValue::Str("/x".to_string()))]);
    assert!(write_info_from(&no_size).is_err());
    let no_path = JsonValue::Object(vec![("size".to_string(), JsonValue::Integer(1))]);
    assert!(write_info_from(&no_path).is_err());
}
