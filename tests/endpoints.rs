use calendar_service::document::{calendar_from_document, calendars_from_documents, MappingError};
use calendar_service::http::{echo, get_calendars, hello, manual_hello, ContentType};
use calendar_service::json::{calendar_json, calendars_json};
use mongodb::bson::oid::ObjectId;
use mongodb::bson::Document;

const ID_A: [u8; 12] = [0x65, 0x0a, 0x1b, 0x2c, 0x3d, 0x4e, 0x5f, 0x60, 0x71, 0x82, 0x93, 0xff];
const ID_B: [u8; 12] = [0, 1, 2, 3, 4, 5, 6, 7, 8, 9, 10, 11];

fn calendar_doc(id: [u8; 12], name: &str) -> Document {
    let mut d = Document::new();
    d.insert("_id", ObjectId::from_bytes(id));
    d.insert("name", name);
    d.insert("color", "#ffffff");
    d.insert("borderColor", "#9e5fff");
    d.insert("backgroundColor", "#9e5fff");
    d.insert("dragBackgroundColor", "#9e5fff");
    d
}

fn object_a() -> String {
    String::from(
        "{\"id\":\"650a1b2c3d4e5f60718293ff\",\"name\":\"Work\",\"color\":\"#ffffff\",\
         \"borderColor\":\"#9e5fff\",\"backgroundColor\":\"#9e5fff\",\
         \"dragBackgroundColor\":\"#9e5fff\"}",
    )
}

#[test]
fn hello_returns_greeting() {
    let r = hello();
    assert_eq!(r.status, 200);
    assert_eq!(r.content_type, ContentType::PlainText);
    assert_eq!(r.body, "Hello world!");
}

#[test]
fn manual_hello_returns_hey() {
    let r = manual_hello();
    assert_eq!(r.status, 200);
    assert_eq!(r.body, "Hey there!");
}

#[test]
fn echo_returns_body_verbatim() {
    let r = echo(String::from("some text\nwith \"quotes\" and ünïcödé"));
    assert_eq!(r.status, 200);
    assert_eq!(r.content_type, ContentType::PlainText);
    assert_eq!(r.body, "some text\nwith \"quotes\" and ünïcödé");
}

#[test]
fn echo_returns_empty_body() {
    let r = echo(String::new());
    assert_eq!(r.status, 200);
    assert_eq!(r.body, "");
}

#[test]
fn listing_of_well_formed_documents() {
    let docs = vec![calendar_doc(ID_A, "Work"), calendar_doc(ID_B, "Home")];
    let r = get_calendars(Ok(docs));
    assert_eq!(r.status, 200);
    assert_eq!(r.content_type, ContentType::Json);
    let second = object_a()
        .replace("650a1b2c3d4e5f60718293ff", "000102030405060708090a0b")
        .replace("Work", "Home");
    assert_eq!(r.body, format!("[{},{}]", object_a(), second));
}

#[test]
fn listing_of_empty_collection() {
    let r = get_calendars(Ok(Vec::new()));
    assert_eq!(r.status, 200);
    assert_eq!(r.content_type, ContentType::Json);
    assert_eq!(r.body, "[]");
}

#[test]
fn listing_with_missing_field_fails_whole() {
    let mut bad = calendar_doc(ID_B, "Home");
    bad.remove("name");
    let r = get_calendars(Ok(vec![calendar_doc(ID_A, "Work"), bad]));
    assert_eq!(r.status, 500);
    assert_eq!(r.content_type, ContentType::PlainText);
    assert_eq!(r.body, "missing or ill-typed field: name");
    assert!(!r.body.contains('['));
}

#[test]
fn listing_when_database_unreachable() {
    let r = get_calendars(Err(String::from("connection refused")));
    assert_eq!(r.status, 500);
    assert_eq!(r.content_type, ContentType::PlainText);
    assert_eq!(r.body, "connection refused");
}

#[test]
fn field_of_wrong_type_is_rejected() {
    let mut d = calendar_doc(ID_A, "Work");
    d.insert("color", 7_i32);
    let e = calendar_from_document(&d).unwrap_err();
    assert_eq!(e.field, "color");
}

#[test]
fn identifier_must_be_object_id() {
    let mut d = calendar_doc(ID_A, "Work");
    d.insert("_id", "650a1b2c3d4e5f60718293ff");
    let e = calendar_from_document(&d).unwrap_err();
    assert_eq!(e.field, "_id");
    let mut d = calendar_doc(ID_A, "Work");
    d.remove("_id");
    assert_eq!(calendar_from_document(&d).unwrap_err().field, "_id");
}

#[test]
fn first_missing_field_is_reported() {
    let mut d = Document::new();
    d.insert("_id", ObjectId::from_bytes(ID_A));
    d.insert("name", "Work");
    d.insert("color", "red");
    let e = calendar_from_document(&d).unwrap_err();
    assert_eq!(e.field, "borderColor");
}

#[test]
fn document_fields_are_read() {
    let mut d = calendar_doc(ID_A, "Work");
    d.insert("extra", 3_i32);
    let c = calendar_from_document(&d).unwrap();
    assert_eq!(c.id, ID_A);
    assert_eq!(c.name, "Work");
    assert_eq!(c.color, "#ffffff");
    assert_eq!(c.border_color, "#9e5fff");
    assert_eq!(c.background_color, "#9e5fff");
    assert_eq!(c.drag_background_color, "#9e5fff");
}

#[test]
fn mapping_stops_at_first_bad_document() {
    let mut bad1 = calendar_doc(ID_B, "x");
    bad1.remove("backgroundColor");
    let mut bad2 = calendar_doc(ID_B, "y");
    bad2.remove("name");
    let docs = vec![calendar_doc(ID_A, "Work"), bad1, bad2];
    let e = calendars_from_documents(&docs).unwrap_err();
    assert_eq!(e.field, "backgroundColor");
    let ok = calendars_from_documents(&vec![calendar_doc(ID_A, "Work")]).unwrap();
    assert_eq!(ok.len(), 1);
}

#[test]
fn mapping_error_message() {
    let e = MappingError { field: String::from("dragBackgroundColor") };
    assert_eq!(e.message(), "missing or ill-typed field: dragBackgroundColor");
}

#[test]
fn identifier_is_lowercase_hex() {
    let c = calendar_from_document(&calendar_doc(ID_A, "Work")).unwrap();
    assert_eq!(calendar_json(&c), object_a());
}

#[test]
fn text_fields_are_escaped() {
    let c = calendar_from_document(&calendar_doc(ID_B, "a \"quoted\"\\name\n")).unwrap();
    let j = calendar_json(&c);
    assert!(j.contains("\"name\":\"a \\\"quoted\\\"\\\\name\\n\""));
    assert!(j.starts_with("{\"id\":\"000102030405060708090a0b\","));
}

#[test]
fn array_of_no_calendars() {
    assert_eq!(calendars_json(&Vec::new()), "[]");
}
