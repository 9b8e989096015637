use kairoa::http::{
    build_form_parts, forwards_header, http_response, is_multipart, parse_http_method,
    plan_request_body, transport_error_response, FormPart, HttpMethod, MultipartBody,
    MultipartEntry, RequestBody,
};
use kairoa::keys::{dsa_key_size, hex_key_pair, key_encoding, DsaKeySize, KeyEncoding};
use kairoa::media::{
    decimal, needs_smaller_encoding, output_format, select_compression, select_page, ImageFormat,
};
use kairoa::password::{
    hash_argon2, hash_bcrypt, hash_pbkdf2, hash_scrypt, large_lane_count, resolve_salt, verify_argon2,
    verify_bcrypt, verify_pbkdf2, verify_scrypt, PasswordHashRequest, PasswordVerifyRequest,
};
use std::collections::HashMap;

fn entry(key: &str, value: &str, kind: &str, filename: Option<&str>) -> MultipartEntry {
    MultipartEntry {
        key: key.to_string(),
        value: value.to_string(),
        entry_type: kind.to_string(),
        filename: filename.map(String::from),
    }
}

fn hash_request(password: &str, salt: Option<&str>) -> PasswordHashRequest {
    PasswordHashRequest {
        password: password.to_string(),
        salt: salt.map(String::from),
        algorithm: String::new(),
        iterations: None,
        n: None,
        r: None,
        p: None,
        memory: None,
        argon2_iterations: None,
        parallelism: None,
    }
}

fn verify_request(password: &str, hash: &str) -> PasswordVerifyRequest {
    PasswordVerifyRequest { password: password.to_string(), hash: hash.to_string() }
}

#[test]
fn methods_are_recognised_exactly() {
    assert_eq!(parse_http_method("GET"), Ok(HttpMethod::Get));
    assert_eq!(parse_http_method("OPTIONS"), Ok(HttpMethod::Options));
    assert_eq!(parse_http_method("PATCH"), Ok(HttpMethod::Patch));
    assert_eq!(parse_http_method("get"), Err("Unsupported HTTP method: get".to_string()));
    assert_eq!(parse_http_method("TRACE"), Err("Unsupported HTTP method: TRACE".to_string()));
}

#[test]
fn content_type_is_dropped_only_for_forms() {
    assert!(!forwards_header("Content-Type", true));
    assert!(!forwards_header("CONTENT-TYPE", true));
    assert!(forwards_header("Content-Type", false));
    assert!(forwards_header("Accept", true));
}

#[test]
fn multipart_description_becomes_form_parts() {
    let body = MultipartBody {
        body_type: "multipart".to_string(),
        entries: vec![
            entry("name", "value", "text", None),
            entry("upload", "aGVsbG8=", "file", Some("a.txt")),
            entry("bad", "***", "file", None),
            entry("blob", "AAE=", "file", None),
        ],
    };
    assert!(is_multipart(&Some(body.clone())));
    let parts = build_form_parts(&body.entries);
    assert_eq!(
        parts,
        vec![
            FormPart::Text { key: "name".to_string(), value: "value".to_string() },
            FormPart::File { key: "upload".to_string(), bytes: b"hello".to_vec(), filename: Some("a.txt".to_string()) },
            FormPart::File { key: "blob".to_string(), bytes: vec![0, 1], filename: None },
        ]
    );
    let planned = plan_request_body(Some("{}".to_string()), Some(body));
    assert_eq!(planned, RequestBody::Form(parts));
}

#[test]
fn other_bodies_are_sent_as_they_are() {
    let not_form = MultipartBody { body_type: "json".to_string(), entries: vec![] };
    assert!(!is_multipart(&Some(not_form.clone())));
    assert!(!is_multipart(&None));
    assert_eq!(plan_request_body(Some("x".to_string()), Some(not_form)), RequestBody::Raw("x".to_string()));
    assert_eq!(plan_request_body(Some("y".to_string()), None), RequestBody::Raw("y".to_string()));
    assert_eq!(plan_request_body(None, None), RequestBody::Empty);
}

#[test]
fn responses_are_reported() {
    let e = transport_error_response("dns error".to_string());
    assert_eq!(e.status, 0);
    assert!(e.headers.is_empty());
    assert_eq!(e.body, "");
    assert_eq!(e.error, Some("dns error".to_string()));
    let mut h = HashMap::new();
    h.insert("a".to_string(), "b".to_string());
    let ok = http_response(200, h.clone(), Ok("hi".to_string()));
    assert_eq!((ok.status, ok.body.as_str(), ok.error.clone()), (200, "hi", None));
    assert_eq!(ok.headers, h);
    let bad = http_response(502, HashMap::new(), Err("eof".to_string()));
    assert_eq!(bad.body, "Error reading response body: eof");
}

#[test]
fn image_formats_follow_the_request() {
    assert_eq!(output_format(Some("webp")), ImageFormat::Webp);
    assert_eq!(output_format(Some("png")), ImageFormat::Png);
    assert_eq!(output_format(Some("jpg")), ImageFormat::Jpeg);
    assert_eq!(output_format(Some("gif")), ImageFormat::Jpeg);
    assert_eq!(output_format(None), ImageFormat::Jpeg);
}

#[test]
fn smallest_candidate_is_kept() {
    let original = vec![0u8; 10];
    let r = select_compression(original.clone(), vec![1; 4], ImageFormat::Png, None);
    assert_eq!((r.compressed_data, r.format.as_str(), r.original_size, r.compressed_size), (vec![1; 4], "png", 10, 4));
    assert!(needs_smaller_encoding(10, 10));
    assert!(!needs_smaller_encoding(9, 10));
    let r = select_compression(original.clone(), vec![1; 12], ImageFormat::Webp, Some(vec![2; 6]));
    assert_eq!((r.compressed_data, r.format.as_str(), r.compressed_size), (vec![2; 6], "webp", 6));
    let r = select_compression(original.clone(), vec![1; 12], ImageFormat::Jpeg, Some(vec![2; 11]));
    assert_eq!((r.compressed_data, r.format.as_str(), r.compressed_size), (original.clone(), "original", 10));
    let r = select_compression(original.clone(), vec![1; 10], ImageFormat::Jpeg, Some(vec![2; 10]));
    assert_eq!(r.format, "original");
}

#[test]
fn pages_are_checked_against_the_document() {
    assert_eq!(select_page(None, 3), Ok(0));
    assert_eq!(select_page(Some(3), 3), Ok(2));
    assert_eq!(select_page(Some(4), 3), Err("Page 4 not found. PDF has 3 pages".to_string()));
    assert_eq!(select_page(Some(0), 12), Err("Page 0 not found. PDF has 12 pages".to_string()));
    assert_eq!(select_page(None, 0), Err("Page 1 not found. PDF has 0 pages".to_string()));
}

#[test]
fn decimals_are_written_in_full() {
    assert_eq!(decimal(0), "0");
    assert_eq!(decimal(907), "907");
    assert_eq!(decimal(u32::MAX), "4294967295");
}

#[test]
fn salts_are_checked_or_generated() {
    assert_eq!(resolve_salt(Some("c2FsdHNhbHQ".to_string())), Ok("c2FsdHNhbHQ".to_string()));
    assert!(resolve_salt(Some("abc".to_string())).unwrap_err().starts_with("Invalid salt: "));
    assert!(resolve_salt(Some("abc$defg".to_string())).unwrap_err().starts_with("Invalid salt: "));
    let fresh = resolve_salt(None).unwrap();
    assert_eq!(fresh.len(), 22);
}

#[test]
fn pbkdf2_round_trip() {
    let h = hash_pbkdf2(hash_request("hunter2", Some("c2FsdHNhbHQ"))).unwrap();
    assert_eq!(h.salt, "c2FsdHNhbHQ");
    assert!(h.hash.starts_with("$pbkdf2-sha256$"));
    assert_eq!(verify_pbkdf2(verify_request("hunter2", &h.hash)).unwrap().valid, true);
    assert_eq!(verify_pbkdf2(verify_request("hunter3", &h.hash)).unwrap().valid, false);
    assert!(verify_pbkdf2(verify_request("x", "not a hash")).unwrap_err().starts_with("Invalid hash format: "));
    assert!(hash_pbkdf2(hash_request("x", Some("!"))).unwrap_err().starts_with("Invalid salt: "));
}

#[test]
fn scrypt_rejects_bad_input() {
    assert!(hash_scrypt(hash_request("pw", Some("a b c d"))).unwrap_err().starts_with("Invalid salt: "));
    assert!(verify_scrypt(verify_request("pw", "not a hash")).unwrap_err().starts_with("Invalid hash format: "));
    assert!(!verify_scrypt(verify_request("pw", "$scrypt")).unwrap().valid);
}

#[test]
fn argon2_round_trip_and_params() {
    let h = hash_argon2(hash_request("pw", Some("c2FsdHNhbHQ"))).unwrap();
    assert!(h.hash.starts_with("$argon2id$v=19$m=19456,t=2,p=1$"));
    assert!(verify_argon2(verify_request("pw", &h.hash)).unwrap().valid);
    assert!(!verify_argon2(verify_request("no", &h.hash)).unwrap().valid);
    let mut custom = hash_request("pw", Some("c2FsdHNhbHQ"));
    custom.memory = Some(4096);
    custom.argon2_iterations = Some(1);
    let c = hash_argon2(custom).unwrap();
    assert!(c.hash.starts_with("$argon2id$v=19$m=4096,t=1,p=1$"));
    let mut bad = hash_request("pw", None);
    bad.parallelism = Some(0);
    assert!(hash_argon2(bad).unwrap_err().starts_with("Failed to build params: "));
}

#[test]
fn bcrypt_round_trip_and_cost() {
    let mut req = hash_request("pw", None);
    req.iterations = Some(4);
    let h = hash_bcrypt(req).unwrap();
    assert_eq!(h.salt, "included_in_hash");
    assert_eq!(h.hash.len(), 60);
    assert!(h.hash.starts_with("$2b$04$"));
    let mut req = hash_request("pw", None);
    req.iterations = Some(5);
    assert!(hash_bcrypt(req).unwrap().hash.starts_with("$2b$05$"));
    assert!(verify_bcrypt(verify_request("pw", &h.hash)).unwrap().valid);
    assert!(!verify_bcrypt(verify_request("px", &h.hash)).unwrap().valid);
    assert!(verify_bcrypt(verify_request("pw", "garbage")).unwrap_err().starts_with("Failed to verify password: "));
    let mut too_cheap = hash_request("pw", None);
    too_cheap.iterations = Some(3);
    assert!(hash_bcrypt(too_cheap).unwrap_err().starts_with("Failed to hash password: "));
}

#[test]
fn dsa_key_sizes_and_encodings() {
    assert_eq!(dsa_key_size(1024), Ok(DsaKeySize::Dsa1024With160));
    assert_eq!(dsa_key_size(2048), Ok(DsaKeySize::Dsa2048With256));
    assert_eq!(dsa_key_size(3072), Ok(DsaKeySize::Dsa3072With256));
    assert_eq!(
        dsa_key_size(4096),
        Err("Unsupported key size: 4096. Supported sizes: 1024, 2048, 3072".to_string())
    );
    assert_eq!(key_encoding("pem"), KeyEncoding::Pem);
    assert_eq!(key_encoding("der"), KeyEncoding::DerHex);
    assert_eq!(key_encoding("PEM"), KeyEncoding::DerHex);
    let pair = hex_key_pair(&[0x30, 0x82], &[0xde, 0xad, 0xbe, 0xef], "der".to_string());
    assert_eq!(pair.public_key, "3082");
    assert_eq!(pair.private_key, "DEADBEEF");
    assert_eq!(pair.format, "der");
}

#[test]
fn argon2_lane_count_above_maximum_is_refused() {
    let mut huge = hash_request("pw", Some("c2FsdHNhbHQ"));
    huge.parallelism = Some(536870912);
    assert!(hash_argon2(huge).unwrap_err().starts_with("Failed to build params: "));
    let mut over = hash_request("pw", None);
    over.parallelism = Some(0x1000000);
    assert!(hash_argon2(over).unwrap_err().starts_with("Failed to build params: "));
    let mut bad_salt = hash_request("pw", Some("!"));
    bad_salt.parallelism = Some(536870912);
    assert!(hash_argon2(bad_salt).unwrap_err().starts_with("Invalid salt: "));
}

#[test]
fn argon2_hash_naming_huge_lane_count_does_not_verify() {
    let hash = "$argon2id$v=19$m=19456,t=2,p=536870912$c2FsdHNhbHQ$AAAAAAAAAAAAAAAAAAAAAAAAAAAAAAAAAAAAAAAAAAA";
    assert!(large_lane_count(hash));
    assert_eq!(verify_argon2(verify_request("pw", hash)).unwrap().valid, false);
    assert!(!large_lane_count("$argon2id$v=19$m=19456,t=2,p=1$c2FsdHNhbHQ$AAAA"));
    assert!(!large_lane_count("p=12345678"));
    assert!(large_lane_count("p=123456789"));
    assert!(!large_lane_count(""));
}
