use realtime_svg::jwks::jwks_document;

fn encoded(bytes: &[u8]) -> String {
    // Reads one value's base64url text back out of the document.
    let doc = jwks_document(&bytes.to_vec(), &Vec::new());
    let parsed: serde_json::Value = serde_json::from_str(&doc).unwrap();
    parsed["keys"][0]["n"].as_str().unwrap().to_string()
}

#[test]
fn base64url_is_unpadded() {
    assert_eq!(encoded(b"Man"), "TWFu");
    assert_eq!(encoded(b"Ma"), "TWE");
    assert_eq!(encoded(b"M"), "TQ");
    assert_eq!(encoded(b""), "");
    // The URL-safe alphabet: 0xfb 0xff encodes with '-' and '_'.
    assert_eq!(encoded(&[0xfb, 0xff]), "-_8");
}

#[test]
fn jwks_document_layout() {
    let n = b"Man".to_vec();
    let e = vec![0x01, 0x00, 0x01];
    let doc = jwks_document(&n, &e);
    assert_eq!(
        doc,
        "{\"keys\":[{\"kty\":\"RSA\",\"use\":\"sig\",\"alg\":\"RS256\",\"n\":\"TWFu\",\"e\":\"AQAB\"}]}"
    );
}

#[test]
fn jwks_document_parses_as_a_key_set() {
    let n = vec![0xde, 0xad, 0xbe, 0xef];
    let e = vec![0x01, 0x00, 0x01];
    let doc = jwks_document(&n, &e);
    let parsed: serde_json::Value = serde_json::from_str(&doc).unwrap();
    let key = &parsed["keys"][0];
    assert_eq!(key["kty"], "RSA");
    assert_eq!(key["alg"], "RS256");
    assert_eq!(key["use"], "sig");
    assert_eq!(key["e"], "AQAB");
}
