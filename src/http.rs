//! The responses of the service's endpoints, as plain values.

use crate::document::{
    all_calendar_documents, calendars_from_documents, calendars_of, doc_object_ids, doc_strings,
    invalid_field, is_calendar_document, mapping_message,
};
use crate::json::{calendar_json_of, calendars_json, hex_of, json_array_of, member_of};
use mongodb::bson::Document;
use vstd::prelude::*;

verus! {

/// Status code of a successful response.
pub const STATUS_OK: u16 = 200;

/// Status code of a response that reports a failure.
pub const STATUS_INTERNAL_ERROR: u16 = 500;

/// How the body of a response is to be labelled.
#[derive(Clone, Copy, Debug, PartialEq, Eq, Structural)]
pub enum ContentType {
    PlainText,
    Json,
}

/// A response: status, kind of body, and body text.
#[derive(Debug)]
pub struct Response {
    pub status: u16,
    pub content_type: ContentType,
    pub body: String,
}

/// A successful plain-text response with body `text`.
pub open spec fn is_text_ok(r: Response, text: Seq<char>) -> bool {
    &&& r.status == STATUS_OK
    &&& r.content_type == ContentType::PlainText
    &&& r.body@ == text
}

fn text_response(status: u16, body: String) -> (r: Response)
    ensures
        r.status == status,
        r.content_type == ContentType::PlainText,
        r.body@ == body@,
{
    Response { status, content_type: ContentType::PlainText, body }
}

/// `GET /`: always the greeting `Hello world!`.
pub fn hello() -> (r: Response)
    ensures
        is_text_ok(r, "Hello world!"@),
{
    text_response(STATUS_OK, String::from_str("Hello world!"))
}

/// `POST /echo`: the request body, unchanged.
pub fn echo(req_body: String) -> (r: Response)
    ensures
        is_text_ok(r, req_body@),
{
    text_response(STATUS_OK, req_body)
}

/// `GET /hey`: always `Hey there!`.
pub fn manual_hello() -> (r: Response)
    ensures
        is_text_ok(r, "Hey there!"@),
{
    text_response(STATUS_OK, String::from_str("Hey there!"))
}

/// A failure response that carries `text` as its body.
pub open spec fn is_text_error(r: Response, text: Seq<char>) -> bool {
    &&& r.status == STATUS_INTERNAL_ERROR
    &&& r.content_type == ContentType::PlainText
    &&& r.body@ == text
}

/// `GET /api/v1/calendars`, given what reading the whole collection gave:
/// its documents, or the text of the database's error. Every document well
/// formed: status 200 and the JSON array of their calendars. Otherwise
/// status 500 and the error's text; a bad document reports the first one.
pub fn get_calendars(fetched: Result<Vec<Document>, String>) -> (r: Response)
    ensures
        match fetched {
            Err(msg) => is_text_error(r, msg@),
            Ok(docs) => if all_calendar_documents(docs@) {
                &&& r.status == STATUS_OK
                &&& r.content_type == ContentType::Json
                &&& r.body@ == json_array_of(calendars_of(docs@))
            } else {
                exists|i: int|
                    #![trigger invalid_field(docs@[i])]
                    0 <= i < docs@.len() && (forall|j: int|
                        0 <= j < i ==> is_calendar_document(#[trigger] docs@[j]))
                        && invalid_field(docs@[i]) is Some && is_text_error(
                        r,
                        mapping_message(invalid_field(docs@[i])->0),
                    )
            },
        },
        fetched matches Ok(docs) && docs@.len() == 0 ==> r.status == STATUS_OK && r.body@ == "[]"@,
{
    match fetched {
        Err(msg) => text_response(STATUS_INTERNAL_ERROR, msg),
        Ok(docs) => match calendars_from_documents(&docs) {
            Ok(cs) => Response {
                status: STATUS_OK,
                content_type: ContentType::Json,
                body: calendars_json(&cs),
            },
            Err(e) => text_response(STATUS_INTERNAL_ERROR, e.message()),
        },
    }
}

/// A listing of N well-formed documents is an array of N objects, in the
/// documents' order: the i-th holds the lowercase hex of the i-th document's
/// identifier under `id`, and its five text fields as they are stored.
pub proof fn lemma_listing_matches_documents(docs: Seq<Document>)
    requires
        all_calendar_documents(docs),
    ensures
        calendars_of(docs).len() == docs.len(),
        forall|i: int|
            0 <= i < docs.len() ==> #[trigger] calendar_json_of(calendars_of(docs)[i]) == "{"@
                + member_of("id"@, hex_of(doc_object_ids(docs[i])["_id"@])) + ","@ + member_of(
                "name"@,
                doc_strings(docs[i])["name"@],
            ) + ","@ + member_of("color"@, doc_strings(docs[i])["color"@]) + ","@ + member_of(
                "borderColor"@,
                doc_strings(docs[i])["borderColor"@],
            ) + ","@ + member_of("backgroundColor"@, doc_strings(docs[i])["backgroundColor"@])
                + ","@ + member_of(
                "dragBackgroundColor"@,
                doc_strings(docs[i])["dragBackgroundColor"@],
            ) + "}"@,
{
}

} // verus!
