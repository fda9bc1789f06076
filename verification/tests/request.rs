use configurator::request::{
    body_text, init_wallet_request, macaroon_header, restore_request, skip_nulls, unlock_request,
    Field, FieldValue,
};

fn field(name: &str, value: FieldValue) -> Field {
    Field { name: name.to_string(), value }
}

#[test]
fn macaroon_header_is_upper_case_hex() {
    assert_eq!(
        macaroon_header(&[1, 2, 3, 15, 16, 0xab]).unwrap(),
        "Grpc-Metadata-macaroon: 0102030F10AB"
    );
    assert_eq!(macaroon_header(&[]).unwrap(), "Grpc-Metadata-macaroon: ");
}

#[test]
fn skip_nulls_keeps_order_and_drops_only_nulls() {
    let fields = vec![
        field("a", FieldValue::Null),
        field("b", FieldValue::Number(0)),
        field("c", FieldValue::Text(String::new())),
        field("d", FieldValue::Null),
        field("e", FieldValue::List(vec![])),
    ];
    let kept = skip_nulls(fields);
    assert_eq!(
        kept,
        vec![
            field("b", FieldValue::Number(0)),
            field("c", FieldValue::Text(String::new())),
            field("e", FieldValue::List(vec![])),
        ]
    );
    assert_eq!(skip_nulls(vec![]), vec![]);
    assert_eq!(skip_nulls(vec![field("x", FieldValue::Null)]), vec![]);
}

#[test]
fn unlock_request_leaves_out_an_absent_recovery_window() {
    let body = unlock_request(b"hello world~", None).unwrap();
    assert_eq!(
        body,
        vec![field("wallet_password", FieldValue::Text("aGVsbG8gd29ybGR+".to_string()))]
    );
}

#[test]
fn unlock_request_carries_the_recovery_window() {
    let body = unlock_request(&[0xfb, 0xff], Some(2500)).unwrap();
    assert_eq!(
        body,
        vec![
            field("wallet_password", FieldValue::Text("+/8=".to_string())),
            field("recovery_window", FieldValue::Number(2500)),
        ]
    );
}

#[test]
fn init_wallet_request_carries_password_and_seed() {
    let words = vec!["absent".to_string(), "zoo".to_string()];
    let body = init_wallet_request(&[0u8; 16], words.clone()).unwrap();
    assert_eq!(
        body,
        vec![
            field(
                "wallet_password",
                FieldValue::Text("AAAAAAAAAAAAAAAAAAAAAA==".to_string())
            ),
            field("cipher_seed_mnemonic", FieldValue::List(words)),
        ]
    );
}

#[test]
fn restore_request_carries_the_backup_in_base64() {
    let body = restore_request(&[1, 2, 3]).unwrap();
    assert_eq!(
        body,
        vec![field("multi_chan_backup", FieldValue::Text("AQID".to_string()))]
    );
}

#[test]
fn body_text_is_a_json_object() {
    assert_eq!(body_text(&vec![]).unwrap(), "{}");
    let body = unlock_request(b"hello world~", None).unwrap();
    assert_eq!(body_text(&body).unwrap(), "{\"wallet_password\":\"aGVsbG8gd29ybGR+\"}");
    let body = unlock_request(&[0xfb, 0xff], Some(2500)).unwrap();
    assert_eq!(
        body_text(&body).unwrap(),
        "{\"recovery_window\":2500,\"wallet_password\":\"+/8=\"}"
    );
    let body = init_wallet_request(&[0u8; 3], vec!["a\"b".to_string(), "c".to_string()]).unwrap();
    assert_eq!(
        body_text(&body).unwrap(),
        "{\"cipher_seed_mnemonic\":[\"a\\\"b\",\"c\"],\"wallet_password\":\"AAAA\"}"
    );
    assert_eq!(
        body_text(&vec![field("x", FieldValue::Null)]).unwrap(),
        "{\"x\":null}"
    );
}
