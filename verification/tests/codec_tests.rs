use easy_db::codec::{cell_to_json, row_to_json};
use easy_db::value::{CellValue, JsonVal};

#[test]
fn null_cell_becomes_json_null() {
    assert_eq!(cell_to_json(&CellValue::Null), JsonVal::Null);
}

#[test]
fn integer_cell_keeps_its_value() {
    assert_eq!(cell_to_json(&CellValue::Int(42)), JsonVal::Int(42));
    assert_eq!(cell_to_json(&CellValue::Int(-7)), JsonVal::Int(-7));
}

#[test]
fn real_cell_keeps_its_bits() {
    let bits = f64::to_bits(3.8);
    assert_eq!(cell_to_json(&CellValue::Real(bits)), JsonVal::Real(bits));
}

#[test]
fn text_cell_is_decoded_as_utf8() {
    let cell = CellValue::Text(b"Alice".to_vec());
    assert_eq!(cell_to_json(&cell), JsonVal::Str(String::from("Alice")));
    let accented = CellValue::Text("héllo".as_bytes().to_vec());
    assert_eq!(cell_to_json(&accented), JsonVal::Str(String::from("héllo")));
}

#[test]
fn invalid_utf8_text_becomes_the_empty_string() {
    let cell = CellValue::Text(vec![0xff, 0xfe, 0x41]);
    assert_eq!(cell_to_json(&cell), JsonVal::Str(String::new()));
}

#[test]
fn blob_cell_becomes_a_byte_listing() {
    let cell = CellValue::Blob(vec![1, 2, 3]);
    assert_eq!(cell_to_json(&cell), JsonVal::Str(String::from("[1, 2, 3]")));
    let empty = CellValue::Blob(Vec::new());
    assert_eq!(cell_to_json(&empty), JsonVal::Str(String::from("[]")));
    let wide = CellValue::Blob(vec![0, 10, 255]);
    assert_eq!(cell_to_json(&wide), JsonVal::Str(String::from("[0, 10, 255]")));
}

#[test]
fn a_row_maps_every_column_in_order() {
    let row = vec![
        (String::from("id"), CellValue::Int(1)),
        (String::from("name"), CellValue::Text(b"Alice".to_vec())),
        (String::from("gpa"), CellValue::Real(f64::to_bits(3.8))),
        (String::from("note"), CellValue::Null),
    ];
    let rec = row_to_json(&row);
    assert_eq!(rec.fields.len(), 4);
    assert_eq!(rec.fields[0], (String::from("id"), JsonVal::Int(1)));
    assert_eq!(
        rec.fields[1],
        (String::from("name"), JsonVal::Str(String::from("Alice")))
    );
    assert_eq!(
        rec.fields[2],
        (String::from("gpa"), JsonVal::Real(f64::to_bits(3.8)))
    );
    assert_eq!(rec.fields[3], (String::from("note"), JsonVal::Null));
}
