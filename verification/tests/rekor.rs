use sigstore::rekor::parse_response;

#[test]
fn parse_response_lifts_uuid_into_named_field() {
    let uuid = "a".repeat(80);
    let body = "\"logIndex\":1";
    let content = format!("{{\"{}\":{{{}}}}}", uuid, body);
    assert_eq!(content.len(), 99);
    let reshaped = parse_response(content);
    let expected = format!("{{\"uuid\":\"{}\",{}", uuid, body);
    assert_eq!(reshaped, expected);
}

#[test]
fn parse_response_keeps_body_unchanged() {
    let uuid = "0123456789".repeat(8);
    let body = "\"verification\":\"sig\",\"index\":42";
    let content = format!("{{\"{}\":{{{}}}}}", uuid, body);
    let reshaped = parse_response(content);
    assert!(reshaped.starts_with("{\"uuid\":\"01234567890123456789"));
    assert!(reshaped.ends_with(body));
}
