use postgres_gateway::decode::{DecodedValue, WireValue};
use postgres_gateway::errors::ErrorKind;
use postgres_gateway::row::{Column, Key, Row};

fn column(name: &str, ty: &str) -> Column {
    Column { name: name.to_string(), declared_type: ty.to_string() }
}

fn value(ty: &str, raw: Vec<u8>) -> WireValue {
    WireValue { declared_type: ty.to_string(), raw, is_null: false }
}

fn sample() -> Row {
    Row::new(
        vec![column("id", "int4"), column("name", "text")],
        vec![value("int4", 7i32.to_be_bytes().to_vec()), value("text", b"alice".to_vec())],
    )
    .unwrap()
}

#[test]
fn lookup_by_name() {
    let row = sample();
    assert_eq!(row.get_by_name("id").unwrap(), DecodedValue::Int4(7));
    assert_eq!(row.get_by_name("name").unwrap(), DecodedValue::Text("alice".to_string()));
    assert_eq!(row.get_by_name("missing").unwrap_err().kind, ErrorKind::NotFound);
    assert_eq!(row.get_by_name("ID").unwrap_err().kind, ErrorKind::NotFound);
}

#[test]
fn lookup_by_position() {
    let row = sample();
    assert_eq!(row.get_by_position(0).unwrap(), DecodedValue::Int4(7));
    assert_eq!(row.get_by_position(5).unwrap_err().kind, ErrorKind::OutOfRange);
    assert_eq!(row.get_by_position(2).unwrap_err().kind, ErrorKind::OutOfRange);
}

#[test]
fn lookup_by_key() {
    let row = sample();
    assert_eq!(
        row.get_item(&Key::Name("name".to_string())).unwrap(),
        DecodedValue::Text("alice".to_string())
    );
    assert_eq!(row.get_item(&Key::Position(0)).unwrap(), DecodedValue::Int4(7));
    assert_eq!(row.get_item(&Key::Position(9)).unwrap_err().kind, ErrorKind::OutOfRange);
}

#[test]
fn keys_in_order_with_duplicates() {
    let row = Row::new(
        vec![column("a", "int2"), column("b", "int2"), column("a", "int2")],
        vec![value("int2", vec![0, 1]), value("int2", vec![0, 2]), value("int2", vec![0, 3])],
    )
    .unwrap();
    assert_eq!(row.keys(), vec!["a".to_string(), "b".to_string(), "a".to_string()]);
    assert_eq!(row.get_by_name("a").unwrap(), DecodedValue::Int2(1));
    assert_eq!(row.position_of("a"), Some(0));
    assert_eq!(row.position_of("b"), Some(1));
}

#[test]
fn mismatched_row_is_refused() {
    assert!(Row::new(vec![column("a", "int2")], vec![]).is_none());
}

#[test]
fn decode_failure_is_reported() {
    let row = Row::new(vec![column("n", "int8")], vec![value("int8", vec![1])]).unwrap();
    assert_eq!(row.get_by_position(0).unwrap_err().kind, ErrorKind::Decode);
}

#[test]
fn null_field() {
    let w = WireValue { declared_type: "text".to_string(), raw: vec![], is_null: true };
    let row = Row::new(vec![column("t", "text")], vec![w]).unwrap();
    assert_eq!(row.get_by_name("t").unwrap(), DecodedValue::Null);
}
