use rustis_core::{
    decode, decode_dump, decode_scan, i64_to_decimal, parse_i64, parse_u64, u64_to_decimal,
    Error, Value,
};

fn bulk(s: &str) -> Value {
    Value::BulkString(s.as_bytes().to_vec())
}

#[test]
fn integer_round_trips_through_text() {
    for n in [0u64, 1, 9, 10, 12345, u64::MAX] {
        let v = Value::BulkString(u64_to_decimal(n));
        assert_eq!(decode::<u64>(v), Ok(n));
    }
    for n in [0i64, -1, -2, 42, i64::MIN, i64::MAX] {
        let v = Value::BulkString(i64_to_decimal(n));
        assert_eq!(decode::<i64>(v), Ok(n));
        assert_eq!(decode::<i64>(Value::Integer(n)), Ok(n));
    }
}

#[test]
fn integer_text_edges() {
    assert_eq!(u64_to_decimal(0), b"0".to_vec());
    assert_eq!(i64_to_decimal(-2), b"-2".to_vec());
    assert_eq!(parse_u64(b"18446744073709551615"), Some(u64::MAX));
    assert_eq!(parse_u64(b"18446744073709551616"), None);
    assert_eq!(parse_u64(b""), None);
    assert_eq!(parse_u64(b"12a"), None);
    assert_eq!(parse_i64(b"-9223372036854775808"), Some(i64::MIN));
    assert_eq!(parse_i64(b"-9223372036854775809"), None);
    assert_eq!(parse_i64(b"9223372036854775808"), None);
    assert_eq!(parse_i64(b"-"), None);
}

#[test]
fn integer_reply_to_bool() {
    assert_eq!(decode::<bool>(Value::Integer(1)), Ok(true));
    assert_eq!(decode::<bool>(Value::Integer(0)), Ok(false));
    assert_eq!(decode::<bool>(Value::Integer(-3)), Ok(true));
    assert_eq!(decode::<bool>(bulk("1")), Err(Error::UnexpectedReply));
}

#[test]
fn integer_reply_errors() {
    assert_eq!(decode::<u64>(Value::Integer(-1)), Err(Error::InvalidInteger));
    assert_eq!(decode::<i64>(bulk("abc")), Err(Error::InvalidInteger));
    assert_eq!(decode::<usize>(Value::Integer(7)), Ok(7));
    assert_eq!(decode::<i64>(Value::Array(vec![Value::Integer(1)])), Err(Error::UnexpectedReply));
}

#[test]
fn bulk_string_as_text_or_bytes() {
    let text = || Value::BulkString("héllo".as_bytes().to_vec());
    assert_eq!(decode::<String>(text()), Ok("héllo".to_string()));
    assert_eq!(decode_dump(text()), Ok("héllo".as_bytes().to_vec()));
    let raw = || Value::BulkString(vec![0xff, 0xfe, 0]);
    assert_eq!(decode::<String>(raw()), Err(Error::InvalidUtf8));
    assert_eq!(decode_dump(raw()), Ok(vec![0xff, 0xfe, 0]));
    assert_eq!(decode::<String>(Value::SimpleString("OK".to_string())), Ok("OK".to_string()));
    assert_eq!(decode_dump(Value::Nil), Err(Error::UnexpectedReply));
}

#[test]
fn nil_reply_to_optional_and_to_scalar() {
    assert_eq!(decode::<Option<String>>(Value::Nil), Ok(None));
    assert_eq!(decode::<Option<i64>>(Value::Nil), Ok(None));
    assert_eq!(decode::<i64>(Value::Nil), Err(Error::UnexpectedReply));
    assert_eq!(decode::<String>(Value::Nil), Err(Error::UnexpectedReply));
    assert_eq!(decode::<Option<String>>(bulk("raw")), Ok(Some("raw".to_string())));
}

#[test]
fn array_reply_keeps_order_and_length() {
    let v = Value::Array(vec![bulk("c"), bulk("a"), bulk("b")]);
    assert_eq!(
        decode::<Vec<String>>(v),
        Ok(vec!["c".to_string(), "a".to_string(), "b".to_string()])
    );
    assert_eq!(decode::<Vec<i64>>(Value::Array(vec![])), Ok(vec![]));
}

#[test]
fn array_reply_fails_whole_on_one_bad_item() {
    let v = Value::Array(vec![Value::Integer(1), bulk("x"), Value::Nil]);
    assert_eq!(decode::<Vec<i64>>(v), Err(Error::InvalidInteger));
    let e = Value::Array(vec![Value::Integer(1), Value::Error("ERR inner".to_string())]);
    assert_eq!(decode::<Vec<i64>>(e), Err(Error::Redis("ERR inner".to_string())));
}

#[test]
fn scan_reply_with_no_matches() {
    let v = Value::Array(vec![bulk("0"), Value::Array(vec![])]);
    assert_eq!(decode_scan::<String>(v), Ok((0, vec![])));
}

#[test]
fn scan_reply_passes_cursor_through() {
    let v = Value::Array(vec![bulk("17"), Value::Array(vec![bulk("k1"), bulk("k2")])]);
    assert_eq!(decode_scan::<String>(v), Ok((17, vec!["k1".to_string(), "k2".to_string()])));
    let done = Value::Array(vec![bulk("0"), Value::Array(vec![bulk("last")])]);
    assert_eq!(decode_scan::<String>(done), Ok((0, vec!["last".to_string()])));
}

#[test]
fn pair_reply_needs_two_items() {
    let short = Value::Array(vec![bulk("0")]);
    assert_eq!(decode_scan::<String>(short), Err(Error::UnexpectedReply));
    assert_eq!(decode_scan::<String>(Value::Array(vec![])), Err(Error::UnexpectedReply));
    assert_eq!(decode_scan::<String>(Value::Nil), Err(Error::UnexpectedReply));
}

#[test]
fn store_error_fails_every_target() {
    let msg = "ERR no such key".to_string();
    let e = || Value::Error(msg.clone());
    assert_eq!(decode::<()>(e()), Err(Error::Redis(msg.clone())));
    assert_eq!(decode::<i64>(e()), Err(Error::Redis(msg.clone())));
    assert_eq!(decode::<Option<String>>(e()), Err(Error::Redis(msg.clone())));
    assert_eq!(decode::<Vec<String>>(e()), Err(Error::Redis(msg.clone())));
    assert_eq!(decode_scan::<String>(e()), Err(Error::Redis(msg.clone())));
    assert_eq!(decode_dump(e()), Err(Error::Redis(msg.clone())));
}

#[test]
fn unit_reply() {
    assert_eq!(decode::<()>(Value::SimpleString("OK".to_string())), Ok(()));
    assert_eq!(decode::<()>(Value::Integer(1)), Err(Error::UnexpectedReply));
}
