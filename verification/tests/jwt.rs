use home_cloud::claims::{chars_of, claims_json, parse_claims, string_of};
use home_cloud::entity::vo::jwt::JWTToken;
use home_cloud::error::Error;
use std::time::{SystemTime, UNIX_EPOCH};

fn now_seconds() -> i64 {
    SystemTime::now().duration_since(UNIX_EPOCH).unwrap().as_secs() as i64
}

fn same(a: &JWTToken, b: &JWTToken) -> bool {
    a.account == b.account
        && a.name == b.name
        && a.organize == b.organize
        && a.ip == b.ip
        && a.city == b.city
        && a.exp == b.exp
}

fn code_of(e: &Error) -> i32 {
    match e {
        Error::E(_, c) => *c,
    }
}

fn message(e: &Error) -> String {
    e.to_string()
}

#[test]
fn test_jwt() {
    // The token expired five seconds ago: still within the leeway.
    let j = JWTToken {
        account: "189".to_string(),
        name: "1".to_string(),
        organize: 1,
        ip: String::from("127.0.0.1"),
        city: String::from("局域网"),
        exp: (now_seconds() - 5) as usize,
    };
    let token = j.create_token("ssss").unwrap();
    assert!(same(&JWTToken::verify("ssss", &token).unwrap(), &j));
}

#[test]
fn token_round_trip_with_awkward_text() {
    let j = JWTToken {
        account: "a\"b\\c".to_string(),
        name: "tab\there\nnew line \u{1} 名字 😀".to_string(),
        organize: 18446744073709551615,
        ip: "::1".to_string(),
        city: "".to_string(),
        exp: 4102444800,
    };
    let token = j.create_token("secret key").unwrap();
    let back = JWTToken::verify_at("secret key", &token, 4102444800).unwrap();
    assert!(same(&back, &j));
}

#[test]
fn token_with_other_secret_is_refused() {
    let j = JWTToken {
        account: "x".to_string(),
        name: "y".to_string(),
        organize: 2,
        ip: "1.2.3.4".to_string(),
        city: "c".to_string(),
        exp: 4102444800,
    };
    let token = j.create_token("one").unwrap();
    let e = JWTToken::verify_at("two", &token, 0).unwrap_err();
    assert_eq!(message(&e), "InvalidToken other errors");
}

#[test]
fn expired_token_is_refused_after_the_leeway() {
    let j = JWTToken {
        account: "x".to_string(),
        name: "y".to_string(),
        organize: 2,
        ip: "1.2.3.4".to_string(),
        city: "c".to_string(),
        exp: 1000,
    };
    let token = j.create_token("k").unwrap();
    assert!(JWTToken::verify_at("k", &token, 2800).is_ok());
    let e = JWTToken::verify_at("k", &token, 2801).unwrap_err();
    assert_eq!(message(&e), "InvalidToken other errors");
    let e = JWTToken::extract_token_at("k", &token, 2801).unwrap_err();
    assert_eq!(message(&e), "access_token is invalid!");
}

#[test]
fn garbage_token_is_refused() {
    let e = JWTToken::verify_at("k", "not a token", 0).unwrap_err();
    assert_eq!(message(&e), "InvalidToken");
    assert_eq!(code_of(&e), home_cloud::util::CODE_FAIL);
    let e = JWTToken::extract_token("k", &String::new()).unwrap_err();
    assert_eq!(message(&e), "access_token is invalid!");
    assert_eq!(code_of(&e), home_cloud::util::CODE_FAIL);
    let e = JWTToken::extract_token_by_header("k", Some("x.y.z")).unwrap_err();
    assert_eq!(message(&e), "access_token is invalid!");
    assert_eq!(code_of(&e), home_cloud::util::CODE_FAIL);
}

#[test]
fn missing_header_is_refused() {
    let e = JWTToken::extract_token_by_header("k", None).unwrap_err();
    assert_eq!(message(&e), "access_token is empty!");
    assert_eq!(code_of(&e), home_cloud::util::CODE_FAIL);
}

#[test]
fn claims_text_is_canonical_json() {
    let j = JWTToken {
        account: "a".to_string(),
        name: "\"".to_string(),
        organize: 7,
        ip: "i".to_string(),
        city: "\u{7f}".to_string(),
        exp: 12,
    };
    let text = string_of(&claims_json(&j));
    assert_eq!(
        text,
        "{\"account\":\"a\",\"name\":\"\\\"\",\"organize\":7,\"ip\":\"i\",\"city\":\"\u{7f}\",\"exp\":12}"
    );
    let back = parse_claims(&chars_of(&text)).unwrap();
    assert!(same(&back, &j));
}

#[test]
fn non_canonical_claims_are_refused() {
    assert!(parse_claims(&chars_of("{\"account\":\"a\"}")).is_none());
    assert!(parse_claims(&chars_of(
        "{\"account\":\"a\",\"name\":\"n\",\"organize\":07,\"ip\":\"i\",\"city\":\"c\",\"exp\":1}"
    ))
    .is_none());
    assert!(parse_claims(&chars_of(
        "{\"name\":\"n\",\"account\":\"a\",\"organize\":7,\"ip\":\"i\",\"city\":\"c\",\"exp\":1}"
    ))
    .is_none());
}

#[test]
fn claims_in_another_layout_are_read() {
    let exp = now_seconds() + 600;
    let text = format!(
        "{{ \"exp\": {}, \"city\": \"c\", \"ip\": \"i\", \"extra\": [1, 2], \"organize\": 7, \"name\": \"n\", \"account\": \"a\" }}",
        exp
    );
    let claims: serde_json::Value = serde_json::from_str(&text).unwrap();
    let token = jsonwebtoken::encode(
        &jsonwebtoken::Header::default(),
        &claims,
        &jsonwebtoken::EncodingKey::from_secret("k".as_bytes()),
    )
    .unwrap();
    let t = JWTToken::verify("k", &token).unwrap();
    assert_eq!((t.account.as_str(), t.name.as_str(), t.organize, t.ip.as_str(), t.city.as_str(), t.exp), ("a", "n", 7, "i", "c", exp as usize));
    let bad: serde_json::Value = serde_json::from_str("{\"account\": \"a\", \"exp\": 1}").unwrap();
    let token = jsonwebtoken::encode(
        &jsonwebtoken::Header::default(),
        &bad,
        &jsonwebtoken::EncodingKey::from_secret("k".as_bytes()),
    )
    .unwrap();
    let e = JWTToken::verify_at("k", &token, 0).unwrap_err();
    assert_eq!(message(&e), "InvalidToken other errors");
}

#[test]
fn tokens_have_three_base64url_parts() {
    let j = JWTToken {
        account: "a".to_string(),
        name: "n".to_string(),
        organize: 1,
        ip: "i".to_string(),
        city: "c".to_string(),
        exp: 10,
    };
    let t = j.create_token("k").unwrap();
    let parts: Vec<&str> = t.split('.').collect();
    assert_eq!(parts.len(), 3);
    for p in parts {
        assert!(!p.is_empty());
        assert!(p.chars().all(|c| c.is_ascii_alphanumeric() || c == '-' || c == '_'));
    }
    assert_eq!(j.create_token("k").unwrap(), t);
}
