use satspath::codec::{decode_payment_request, encode_payment_request, DecodedUri};
use satspath::errors::SatsPathError;

fn request_json(alias: &str, amount_sats: Option<u64>, memo: Option<&str>) -> Vec<u8> {
    let mut obj = serde_json::Map::new();
    obj.insert("version".into(), serde_json::Value::from(1u32));
    obj.insert("alias".into(), serde_json::Value::from(alias));
    obj.insert(
        "amount_sats".into(),
        amount_sats.map(serde_json::Value::from).unwrap_or(serde_json::Value::Null),
    );
    obj.insert(
        "memo".into(),
        memo.map(serde_json::Value::from).unwrap_or(serde_json::Value::Null),
    );
    obj.insert("profile_hint".into(), serde_json::Value::Null);
    serde_json::to_vec(&serde_json::Value::Object(obj)).unwrap()
}

fn decoded_json(uri: &str) -> serde_json::Value {
    match decode_payment_request(uri).unwrap() {
        DecodedUri::Encoded(bytes) => serde_json::from_slice(&bytes).unwrap(),
        DecodedUri::Simple(_) => panic!("expected the encoded form"),
    }
}

#[test]
fn roundtrip_encoded() {
    let uri = encode_payment_request(&request_json("alice@example.com", Some(21000), Some("coffee")));
    assert!(uri.starts_with("satspath:v1:"));
    let req = decoded_json(&uri);
    assert_eq!(req["alias"], "alice@example.com");
    assert_eq!(req["amount_sats"], 21000);
    assert_eq!(req["memo"], "coffee");
    assert_eq!(req["version"], 1);
}

#[test]
fn decode_simple_uri() {
    match decode_payment_request("satspath:bob@satspath.dev").unwrap() {
        DecodedUri::Simple(req) => {
            assert_eq!(req.alias, "bob@satspath.dev");
            assert_eq!(req.amount_sats, None);
        }
        DecodedUri::Encoded(_) => panic!("expected the simple form"),
    }
}

#[test]
fn decode_unknown_scheme_fails() {
    assert!(decode_payment_request("bitcoin:bc1qxxx").is_err());
}

#[test]
fn roundtrip_no_amount() {
    let uri = encode_payment_request(&request_json("carol@example.com", None, None));
    let req = decoded_json(&uri);
    assert_eq!(req["alias"], "carol@example.com");
    assert!(req["amount_sats"].is_null());
    assert!(req["memo"].is_null());
}

#[test]
fn encoded_payload_is_base64url_without_padding() {
    let uri = encode_payment_request(b"{}");
    assert_eq!(uri, "satspath:v1:e30");
    match decode_payment_request(&uri).unwrap() {
        DecodedUri::Encoded(bytes) => assert_eq!(bytes, b"{}".to_vec()),
        DecodedUri::Simple(_) => panic!("expected the encoded form"),
    }
}

#[test]
fn decode_errors_are_invalid_uri() {
    assert_eq!(
        decode_payment_request("satspath:"),
        Err(SatsPathError::InvalidPaymentUri("alias is empty".into()))
    );
    assert_eq!(
        decode_payment_request("bitcoin:bc1qxxx"),
        Err(SatsPathError::InvalidPaymentUri("unknown scheme in URI: bitcoin:bc1qxxx".into()))
    );
    assert!(matches!(
        decode_payment_request("satspath:v1:***"),
        Err(SatsPathError::InvalidPaymentUri(_))
    ));
}
