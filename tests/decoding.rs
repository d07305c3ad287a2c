use postgres_gateway::decode::{
    create_uuid, decode, decode_array, fallback_type, decode_scalar, strategy_for, DecodeError, DecodedValue,
    Identifier, Safety, ScalarKind, Strategy, WireValue,
};
use postgres_gateway::json::{classify_number, decode_json, project_json, JsonError, JsonTree, JsonValue};

fn wire(ty: &str, raw: Vec<u8>) -> WireValue {
    WireValue { declared_type: ty.to_string(), raw, is_null: false }
}

fn array_payload(dims: i32, elements: &[Option<Vec<u8>>]) -> Vec<u8> {
    let mut out = Vec::new();
    out.extend_from_slice(&dims.to_be_bytes());
    out.extend_from_slice(&1i32.to_be_bytes());
    out.extend_from_slice(&23u32.to_be_bytes());
    if dims >= 1 {
        out.extend_from_slice(&(elements.len() as i32).to_be_bytes());
        out.extend_from_slice(&1i32.to_be_bytes());
    }
    for e in elements {
        match e {
            None => out.extend_from_slice(&(-1i32).to_be_bytes()),
            Some(b) => {
                out.extend_from_slice(&(b.len() as i32).to_be_bytes());
                out.extend_from_slice(b);
            }
        }
    }
    out
}

#[test]
fn int2_is_big_endian() {
    assert_eq!(decode(&wire("int2", vec![0x01, 0x02])), Ok(DecodedValue::Int2(258)));
    assert_eq!(decode(&wire("int2", vec![0xff, 0xfe])), Ok(DecodedValue::Int2(-2)));
}

#[test]
fn int4_is_big_endian() {
    assert_eq!(decode(&wire("int4", 7i32.to_be_bytes().to_vec())), Ok(DecodedValue::Int4(7)));
    assert_eq!(
        decode(&wire("int4", vec![0x80, 0, 0, 0])),
        Ok(DecodedValue::Int4(i32::MIN))
    );
}

#[test]
fn int8_is_big_endian() {
    assert_eq!(
        decode(&wire("int8", (-1_000_000_000_000i64).to_be_bytes().to_vec())),
        Ok(DecodedValue::Int8(-1_000_000_000_000))
    );
}

#[test]
fn wrong_width_is_an_error() {
    assert_eq!(
        decode(&wire("int4", vec![1, 2, 3])),
        Err(DecodeError::WrongLength { expected: 4, found: 3 })
    );
    assert_eq!(
        decode(&wire("uuid", vec![0; 15])),
        Err(DecodeError::WrongLength { expected: 16, found: 15 })
    );
    assert_eq!(
        decode(&wire("bool", vec![])),
        Err(DecodeError::WrongLength { expected: 1, found: 0 })
    );
}

#[test]
fn text_kinds_decode_utf8() {
    for ty in ["text", "varchar", "char", "bpchar"] {
        assert_eq!(
            decode(&wire(ty, "héllo".as_bytes().to_vec())),
            Ok(DecodedValue::Text("héllo".to_string()))
        );
    }
    assert_eq!(decode(&wire("text", vec![0xff, 0xfe])), Err(DecodeError::InvalidUtf8));
}

#[test]
fn bool_is_nonzero() {
    assert_eq!(decode(&wire("bool", vec![0])), Ok(DecodedValue::Bool(false)));
    assert_eq!(decode(&wire("bool", vec![5])), Ok(DecodedValue::Bool(true)));
}

#[test]
fn uuid_round_trip() {
    let x: u128 = 0x0123_4567_89ab_cdef_fedc_ba98_7654_3210;
    assert_eq!(
        decode(&wire("uuid", x.to_be_bytes().to_vec())),
        Ok(DecodedValue::Identifier(Identifier { value: x, safety: Safety::Unknown }))
    );
    assert_eq!(create_uuid(x), Identifier { value: x, safety: Safety::Unknown });
}

#[test]
fn null_wins_over_type() {
    for ty in ["int4", "uuid", "_int4", "point"] {
        let w = WireValue { declared_type: ty.to_string(), raw: vec![], is_null: true };
        assert_eq!(decode(&w), Ok(DecodedValue::Null));
    }
}

#[test]
fn unknown_type_gives_bytes() {
    let raw = vec![1, 2, 3, 250];
    assert_eq!(decode(&wire("point", raw.clone())), Ok(DecodedValue::Bytes(raw.clone())));
    assert_eq!(decode(&wire("INT4", raw.clone())), Ok(DecodedValue::Bytes(raw.clone())));
    assert_eq!(decode(&wire("_point", raw.clone())), Ok(DecodedValue::Bytes(raw)));
    assert_eq!(decode(&wire("", vec![])), Ok(DecodedValue::Bytes(vec![])));
}

#[test]
fn registry_names() {
    assert_eq!(strategy_for("int2"), Strategy::Scalar(ScalarKind::Int2));
    assert_eq!(strategy_for("_bpchar"), Strategy::Array(ScalarKind::Text));
    assert_eq!(strategy_for("jsonb"), Strategy::Scalar(ScalarKind::Jsonb));
    assert_eq!(strategy_for("_jsonb"), Strategy::Array(ScalarKind::Jsonb));
    assert_eq!(strategy_for("__int4"), Strategy::Opaque);
    assert_eq!(strategy_for("numeric"), Strategy::Opaque);
}

#[test]
fn array_keeps_order_and_count() {
    let payload = array_payload(
        1,
        &[
            Some(3i32.to_be_bytes().to_vec()),
            None,
            Some(1i32.to_be_bytes().to_vec()),
            Some(2i32.to_be_bytes().to_vec()),
        ],
    );
    assert_eq!(
        decode(&wire("_int4", payload)),
        Ok(DecodedValue::Array(vec![
            DecodedValue::Int4(3),
            DecodedValue::Null,
            DecodedValue::Int4(1),
            DecodedValue::Int4(2),
        ]))
    );
}

#[test]
fn array_of_text() {
    let payload = array_payload(1, &[Some(b"a".to_vec()), Some(b"".to_vec())]);
    assert_eq!(
        decode(&wire("_text", payload)),
        Ok(DecodedValue::Array(vec![
            DecodedValue::Text("a".to_string()),
            DecodedValue::Text(String::new()),
        ]))
    );
}

#[test]
fn empty_array() {
    assert_eq!(
        decode_array(ScalarKind::Int8, &array_payload(0, &[])),
        Ok(DecodedValue::Array(vec![]))
    );
    assert_eq!(
        decode_array(ScalarKind::Int8, &array_payload(1, &[])),
        Ok(DecodedValue::Array(vec![]))
    );
}

#[test]
fn array_framing_errors() {
    let mut trailing = array_payload(1, &[Some(vec![1])]);
    trailing.push(0);
    assert_eq!(decode_array(ScalarKind::Bool, &trailing), Err(DecodeError::MalformedArray));
    let mut truncated = array_payload(1, &[Some(vec![0, 0, 0, 9])]);
    truncated.pop();
    assert_eq!(decode_array(ScalarKind::Int4, &truncated), Err(DecodeError::MalformedArray));
    assert_eq!(decode_array(ScalarKind::Int4, &[0, 0, 0]), Err(DecodeError::MalformedArray));
    assert_eq!(
        decode_array(ScalarKind::Int4, &array_payload(2, &[])),
        Err(DecodeError::TooManyDimensions)
    );
    assert_eq!(
        decode_array(ScalarKind::Int4, &array_payload(-1, &[])),
        Err(DecodeError::MalformedArray)
    );
}

#[test]
fn array_element_error() {
    let payload = array_payload(1, &[Some(vec![0, 0, 0, 1]), Some(vec![0, 1])]);
    assert_eq!(
        decode(&wire("_int4", payload)),
        Err(DecodeError::WrongLength { expected: 4, found: 2 })
    );
}

#[test]
fn decoding_is_deterministic() {
    let w = wire("_int2", array_payload(1, &[Some(vec![0, 9]), None]));
    assert_eq!(decode(&w), decode(&w));
    let t = wire("text", b"same".to_vec());
    assert_eq!(decode(&t), decode(&t));
    assert_eq!(decode_scalar(ScalarKind::Int8, &[0; 8]), decode_scalar(ScalarKind::Int8, &[0; 8]));
}

#[test]
fn json_object_with_array() {
    let expected = JsonValue::Object(vec![(
        "a".to_string(),
        JsonValue::Array(vec![JsonValue::UInt(1), JsonValue::UInt(2), JsonValue::Null]),
    )]);
    assert_eq!(decode_json(br#"{"a":[1,2,null]}"#, false), Ok(expected));
    assert_eq!(
        decode(&wire("json", br#"{"a":[1,2,null]}"#.to_vec())),
        Ok(DecodedValue::Json(JsonValue::Object(vec![(
            "a".to_string(),
            JsonValue::Array(vec![JsonValue::UInt(1), JsonValue::UInt(2), JsonValue::Null]),
        )])))
    );
}

#[test]
fn json_numbers_and_scalars() {
    assert_eq!(
        decode_json(br#"[-5, 1.5, true, "x", 18446744073709551615]"#, false),
        Ok(JsonValue::Array(vec![
            JsonValue::Int(-5),
            JsonValue::Float("1.5".to_string()),
            JsonValue::Bool(true),
            JsonValue::Str("x".to_string()),
            JsonValue::UInt(u64::MAX),
        ]))
    );
}

#[test]
fn jsonb_version_byte() {
    let mut raw = vec![1u8];
    raw.extend_from_slice(b"[true]");
    assert_eq!(
        decode(&wire("jsonb", raw)),
        Ok(DecodedValue::Json(JsonValue::Array(vec![JsonValue::Bool(true)])))
    );
    let mut bad = vec![2u8];
    bad.extend_from_slice(b"[true]");
    assert_eq!(
        decode(&wire("jsonb", bad)),
        Err(DecodeError::Json(JsonError::UnsupportedVersion))
    );
    assert_eq!(decode_json(&[], true), Err(JsonError::UnsupportedVersion));
}

#[test]
fn malformed_json() {
    assert_eq!(decode_json(b"{\"a\":", false), Err(JsonError::Malformed));
    assert_eq!(
        decode(&wire("json", b"nope".to_vec())),
        Err(DecodeError::Json(JsonError::Malformed))
    );
}

#[test]
fn array_of_jsonb() {
    let payload = array_payload(1, &[Some(b"\x01{}".to_vec()), None]);
    assert_eq!(
        decode(&wire("_jsonb", payload)),
        Ok(DecodedValue::Array(vec![
            DecodedValue::Json(JsonValue::Object(vec![])),
            DecodedValue::Null,
        ]))
    );
}

#[test]
fn fallback_is_reported() {
    assert_eq!(fallback_type(&wire("point", vec![1])), Some("point".to_string()));
    assert_eq!(fallback_type(&wire("int4", vec![1])), None);
    let null = WireValue { declared_type: "point".to_string(), raw: vec![], is_null: true };
    assert_eq!(fallback_type(&null), None);
}

#[test]
fn projection_of_tree() {
    let tree = JsonTree::Object(vec![(
        "a".to_string(),
        JsonTree::Array(vec![
            JsonTree::Number(Some(1), Some(1), "1".to_string()),
            JsonTree::Number(None, Some(-2), "-2".to_string()),
            JsonTree::Number(None, None, "0.5".to_string()),
            JsonTree::Null,
            JsonTree::Bool(false),
            JsonTree::Str("s".to_string()),
        ]),
    )]);
    assert_eq!(
        project_json(&tree),
        JsonValue::Object(vec![(
            "a".to_string(),
            JsonValue::Array(vec![
                JsonValue::UInt(1),
                JsonValue::Int(-2),
                JsonValue::Float("0.5".to_string()),
                JsonValue::Null,
                JsonValue::Bool(false),
                JsonValue::Str("s".to_string()),
            ]),
        )])
    );
}

#[test]
fn number_classification() {
    assert_eq!(classify_number(Some(7), Some(7), "7".to_string()), JsonValue::UInt(7));
    assert_eq!(classify_number(None, Some(-7), "-7".to_string()), JsonValue::Int(-7));
    assert_eq!(classify_number(None, None, "1e400".to_string()), JsonValue::Float("1e400".to_string()));
}

#[test]
fn deep_json_nesting() {
    let doc = format!("{}1{}", "[".repeat(100), "]".repeat(100));
    let mut v = decode_json(doc.as_bytes(), false).unwrap();
    for _ in 0..100 {
        v = match v {
            JsonValue::Array(mut items) => {
                assert_eq!(items.len(), 1);
                items.pop().unwrap()
            }
            other => panic!("expected an array, found {:?}", other),
        };
    }
    assert_eq!(v, JsonValue::UInt(1));
}
