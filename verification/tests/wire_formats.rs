use mdns_sd_discovery::labels::split_type_and_domain;
use mdns_sd_discovery::seen::SeenTypes;
use mdns_sd_discovery::text::trim_dot;
use mdns_sd_discovery::txt::{parse_txt_buffer, parse_txt_entry, split_txt_entry};
use mdns_sd_discovery::TxtRecord;

#[test]
fn parse_txt_entry_splits_key_and_value() {
    let record = parse_txt_entry(b"path=/index.html");
    assert_eq!(record.key, "path");
    assert_eq!(record.value.as_deref(), Some(&b"/index.html"[..]));
}

#[test]
fn parse_txt_entry_empty_value_after_equals() {
    let record = parse_txt_entry(b"key=");
    assert_eq!(record.key, "key");
    assert_eq!(record.value.as_deref(), Some(&[][..]));
}

#[test]
fn parse_txt_entry_key_only_has_no_value() {
    let record = parse_txt_entry(b"flag");
    assert_eq!(record.key, "flag");
    assert_eq!(record.value, None);
}

#[test]
fn parse_txt_entry_splits_on_first_equals_only() {
    let record = parse_txt_entry(b"k=a=b");
    assert_eq!(record.key, "k");
    assert_eq!(record.value.as_deref(), Some(&b"a=b"[..]));
}

#[test]
fn parse_txt_entry_preserves_binary_value() {
    let record = parse_txt_entry(b"bin=\x00\xff\x01");
    assert_eq!(record.key, "bin");
    assert_eq!(record.value.as_deref(), Some(&[0x00, 0xff, 0x01][..]));
}

#[test]
fn parse_txt_entry_lossily_decodes_invalid_utf8_key() {
    let record = parse_txt_entry(b"\xff\xffkey");
    assert!(record.key.contains('\u{FFFD}'));
    assert_eq!(record.value, None);
}

#[test]
fn parse_txt_entry_replaces_each_invalid_byte() {
    let record = parse_txt_entry(b"\xffa\xfe=\xff");
    assert_eq!(record.key, "\u{FFFD}a\u{FFFD}");
    assert_eq!(record.value, Some(vec![0xff]));
}

#[test]
fn parse_txt_entry_keeps_equals_out_of_invalid_keys() {
    // A truncated sequence right in front of the `=` does not swallow it.
    let record = parse_txt_entry(b"k\xe2\x82=v=w");
    assert_eq!(record.key, "k\u{FFFD}");
    assert!(!record.key.contains('='));
    assert_eq!(record.value, Some(b"v=w".to_vec()));
}

#[test]
fn parse_txt_entry_decodes_multi_byte_keys() {
    let entry = "größe=1".as_bytes();
    let record = parse_txt_entry(entry);
    assert_eq!(record.key, "größe");
    assert_eq!(record.value, Some(b"1".to_vec()));
    assert_eq!(split_txt_entry(entry).0, "größe".as_bytes());
}

#[test]
fn parse_txt_entry_without_a_key() {
    let record = parse_txt_entry(b"=v");
    assert_eq!(record.key, "");
    assert_eq!(record.value, Some(b"v".to_vec()));
    let record = parse_txt_entry(b"");
    assert_eq!(record.key, "");
    assert_eq!(record.value, None);
}

#[test]
fn parse_txt_buffer_reads_length_prefixed_entries() {
    // "a=1" (3) , "flag" (4)
    let buf = [3u8, b'a', b'=', b'1', 4u8, b'f', b'l', b'a', b'g'];
    let records = parse_txt_buffer(&buf);
    assert_eq!(records.len(), 2);
    assert_eq!(records[0].key, "a");
    assert_eq!(records[0].value.as_deref(), Some(&b"1"[..]));
    assert_eq!(records[1].key, "flag");
    assert_eq!(records[1].value, None);
}

#[test]
fn parse_txt_buffer_skips_empty_entries() {
    let buf = [0u8, 3u8, b'a', b'=', b'1'];
    let records = parse_txt_buffer(&buf);
    assert_eq!(records.len(), 1);
    assert_eq!(records[0].key, "a");
}

#[test]
fn parse_txt_buffer_stops_on_truncated_entry() {
    // claims length 5 but only 2 bytes follow
    let buf = [5u8, b'a', b'b'];
    assert!(parse_txt_buffer(&buf).is_empty());
}

#[test]
fn parse_txt_buffer_empty_input_yields_no_records() {
    assert!(parse_txt_buffer(&[]).is_empty());
}

#[test]
fn parse_txt_buffer_keeps_what_precedes_a_truncated_entry() {
    let buf = [1u8, b'x', 9u8, b'y'];
    assert_eq!(
        parse_txt_buffer(&buf),
        vec![TxtRecord {
            key: "x".to_string(),
            value: None
        }]
    );
}

#[test]
fn packed_entries_come_back_in_order() {
    let long: Vec<u8> = vec![b'v'; 300];
    let entries: Vec<Vec<u8>> = vec![
        b"a=1".to_vec(),
        Vec::new(),
        b"b".to_vec(),
        long,
        b"c==".to_vec(),
    ];
    let mut buf = Vec::new();
    let mut expected = Vec::new();
    for entry in &entries {
        let entry = &entry[..entry.len().min(255)];
        buf.push(entry.len() as u8);
        buf.extend_from_slice(entry);
        if !entry.is_empty() {
            expected.push(parse_txt_entry(entry));
        }
    }
    assert_eq!(expected.len(), 4);
    assert_eq!(parse_txt_buffer(&buf), expected);
}

#[test]
fn packed_buffers_respect_the_framing_limits() {
    let mut buf = vec![255u8, b'='];
    buf.extend_from_slice(&[7u8; 254]);
    buf.extend_from_slice(&[1, b'k']);
    let records = parse_txt_buffer(&buf);
    assert!(records.len() <= buf.len() / 2);
    assert_eq!(records.len(), 2);
    assert_eq!(records[0].value, Some(vec![7u8; 254]));
}

#[test]
fn txt_entries_round_trip() {
    let record = parse_txt_entry(b"name=a=b\x00");
    assert_eq!(record.key, "name");
    assert_eq!(record.value, Some(b"a=b\x00".to_vec()));
}

#[test]
fn trim_dot_strips_only_trailing_dots() {
    assert_eq!(trim_dot("macbook.local."), "macbook.local");
    assert_eq!(trim_dot("a.b.."), "a.b");
    assert_eq!(trim_dot(".a"), ".a");
    assert_eq!(trim_dot("..."), "");
    assert_eq!(trim_dot(""), "");
    assert_eq!(trim_dot("gr\u{fc}n."), "gr\u{fc}n");
    assert_eq!(trim_dot(&trim_dot("x.y..")), "x.y");
}

#[test]
fn seen_types_note_each_pair_once() {
    let mut seen = SeenTypes::new();
    assert!(seen.insert("_http._tcp", "local"));
    assert!(!seen.insert("_http._tcp", "local"));
    assert!(seen.insert("_http._tcp", "example.com"));
    assert!(seen.contains("_http._tcp", "local"));
    assert!(!seen.contains("_http._tcp", ""));
}

#[test]
fn names_split_behind_their_second_label() {
    assert_eq!(
        split_type_and_domain("_http._tcp.example.com"),
        ("_http._tcp".to_string(), Some("example.com".to_string()))
    );
    assert_eq!(
        split_type_and_domain("_http._tcp"),
        ("_http._tcp".to_string(), None)
    );
    assert_eq!(
        split_type_and_domain("single"),
        ("single".to_string(), None)
    );
}
