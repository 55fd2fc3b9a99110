use catscii::json::parse_image_search;

fn parse(body: &[u8]) -> Option<Vec<Vec<u8>>> {
    parse_image_search(&body.to_vec())
}

#[test]
fn parses_single_record() {
    let r = parse(br#"[{"url":"http://x/cat.png"}]"#);
    assert_eq!(r, Some(vec![b"http://x/cat.png".to_vec()]));
}

#[test]
fn parses_empty_array() {
    assert_eq!(parse(b"[]"), Some(vec![]));
    assert_eq!(parse(b"  [
 ]  "), Some(vec![]));
}

#[test]
fn parses_multiple_records_in_order() {
    let r = parse(br#"[{"url":"a"},{"url":"b"},{"url":"c"}]"#);
    assert_eq!(r, Some(vec![b"a".to_vec(), b"b".to_vec(), b"c".to_vec()]));
}

#[test]
fn tolerates_whitespace_everywhere() {
    let r = parse(b" [ { \"url\" : \"a\" } , { \"url\" : \"b\" } ] ");
    assert_eq!(r, Some(vec![b"a".to_vec(), b"b".to_vec()]));
}

#[test]
fn ignores_other_members() {
    let body = br#"[{"id":"abc","url":"http://x","width":1200,"height":7.5e-1,"tags":["a",{"x":null}],"ok":true,"no":false}]"#;
    assert_eq!(parse(body), Some(vec![b"http://x".to_vec()]));
}

#[test]
fn decodes_escapes() {
    let r = parse(br#"[{"url":"a\/b\n\t\"\\A"}]"#);
    assert_eq!(r, Some(vec![b"a/b\n\t\"\\A".to_vec()]));
}

#[test]
fn decodes_two_byte_and_three_byte_escapes() {
    // U+00E9 and U+20AC, escaped; the parser re-encodes them as UTF-8
    let r = parse(br#"[{"url":"\u00e9\u20ac"}]"#);
    assert_eq!(r, Some(vec!["\u{e9}\u{20ac}".as_bytes().to_vec()]));
}

#[test]
fn decodes_surrogate_pair() {
    let r = parse(br#"[{"url":"\uD83D\uDE3A"}]"#);
    assert_eq!(r, Some(vec!["\u{1F63A}".as_bytes().to_vec()]));
}

#[test]
fn recognises_escaped_url_key() {
    let r = parse(br#"[{"\u0075rl":"z"}]"#);
    assert_eq!(r, Some(vec![b"z".to_vec()]));
}

#[test]
fn keeps_raw_multibyte_content() {
    let body = "[{\"url\":\"caf\u{e9}\"}]".as_bytes().to_vec();
    let r = parse_image_search(&body);
    assert_eq!(r, Some(vec!["caf\u{e9}".as_bytes().to_vec()]));
}

#[test]
fn rejects_missing_url_member() {
    assert_eq!(parse(br#"[{}]"#), None);
    assert_eq!(parse(br#"[{"id":"x"}]"#), None);
}

#[test]
fn rejects_duplicate_url_member() {
    assert_eq!(parse(br#"[{"url":"a","url":"b"}]"#), None);
}

#[test]
fn rejects_non_string_url() {
    assert_eq!(parse(br#"[{"url":1}]"#), None);
    assert_eq!(parse(br#"[{"url":null}]"#), None);
    assert_eq!(parse(br#"[{"url":["a"]}]"#), None);
}

#[test]
fn rejects_malformed_documents() {
    assert_eq!(parse(b""), None);
    assert_eq!(parse(b"{}"), None);
    assert_eq!(parse(b"["), None);
    assert_eq!(parse(br#"[{"url":"a"},]"#), None);
    assert_eq!(parse(br#"[{"url":"a"}"#), None);
    assert_eq!(parse(br#"[{"url":"a"}] x"#), None);
    assert_eq!(parse(br#"["a"]"#), None);
    assert_eq!(parse(b"[,]"), None);
}

#[test]
fn rejects_bad_strings() {
    // lone surrogates, bad escapes, unescaped control bytes
    assert_eq!(parse(br#"[{"url":"\uD83D"}]"#), None);
    assert_eq!(parse(br#"[{"url":"\uDE3A"}]"#), None);
    assert_eq!(parse(br#"[{"url":"\x41"}]"#), None);
    assert_eq!(parse(b"[{\"url\":\"a\x07b\"}]"), None);
    assert_eq!(parse(br#"[{"url":"open"#), None);
}

#[test]
fn rejects_bad_numbers() {
    assert_eq!(parse(br#"[{"url":"a","n":01}]"#), None);
    assert_eq!(parse(br#"[{"url":"a","n":1.}]"#), None);
    assert_eq!(parse(br#"[{"url":"a","n":1e}]"#), None);
    assert_eq!(parse(br#"[{"url":"a","n":-}]"#), None);
}

#[test]
fn accepts_full_number_grammar() {
    let body = br#"[{"url":"a","n":-0.5e+10,"m":0,"k":12.25E-3}]"#;
    assert_eq!(parse(body), Some(vec![b"a".to_vec()]));
}

#[test]
fn accepts_nested_ignored_structure() {
    let body = br#"[{"url":"a","deep":{"url":["not",{"url":"here"}],"x":[[[]]]}}]"#;
    assert_eq!(parse(body), Some(vec![b"a".to_vec()]));
}

#[test]
fn rejects_invalid_utf8_in_string_content() {
    // a stray 0xff inside a string that is not the url member
    let mut body = b"[{\"a\":\"".to_vec();
    body.push(0xff);
    body.extend_from_slice(b"\",\"url\":\"x\"}]");
    assert_eq!(parse_image_search(&body), None);

    // a stray continuation byte inside the url member
    let mut body = b"[{\"url\":\"".to_vec();
    body.push(0x80);
    body.extend_from_slice(b"\"}]");
    assert_eq!(parse_image_search(&body), None);
}

#[test]
fn rejects_overlong_utf8_encoding() {
    // 0xC0 0xAF is an overlong encoding of '/'
    let mut body = b"[{\"url\":\"".to_vec();
    body.extend_from_slice(&[0xc0, 0xaf]);
    body.extend_from_slice(b"\"}]");
    assert_eq!(parse_image_search(&body), None);
}

#[test]
fn rejects_utf8_encoded_surrogate() {
    // 0xED 0xA0 0x80 encodes the surrogate U+D800
    let mut body = b"[{\"url\":\"".to_vec();
    body.extend_from_slice(&[0xed, 0xa0, 0x80]);
    body.extend_from_slice(b"\"}]");
    assert_eq!(parse_image_search(&body), None);
}

#[test]
fn rejects_truncated_utf8_sequence() {
    // 0xC3 expects a continuation byte, but the closing quote follows
    let mut body = b"[{\"url\":\"a".to_vec();
    body.push(0xc3);
    body.extend_from_slice(b"\"}]");
    assert_eq!(parse_image_search(&body), None);
}

#[test]
fn accepts_raw_four_byte_utf8() {
    let body = "[{\"url\":\"\u{1F63A}\"}]".as_bytes().to_vec();
    assert_eq!(parse_image_search(&body), Some(vec!["\u{1F63A}".as_bytes().to_vec()]));
}
