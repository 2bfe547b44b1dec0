//! Calendar records and how they are read from stored documents.

use mongodb::bson::oid::ObjectId;
use mongodb::bson::Document;
use vstd::prelude::*;

verus! {

/// Name of the database that holds the calendars.
pub const DB_NAME: &'static str = "diary-notebook";

/// Name of the collection that holds the calendars.
pub const COLL_NAME: &'static str = "calendars";

#[verifier::external_type_specification]
#[verifier::external_body]
pub struct ExDocument(Document);

/// The string-valued entries of a document, by key.
pub uninterp spec fn doc_strings(d: Document) -> Map<Seq<char>, Seq<char>>;

/// The object-identifier-valued entries of a document, by key, as their
/// twelve bytes.
pub uninterp spec fn doc_object_ids(d: Document) -> Map<Seq<char>, Seq<u8>>;

/// Relies on bson's `Document::get_str`: the value under `key` when it is
/// present and a BSON string, and an error otherwise.
#[verifier::external_body]
fn document_str(doc: &Document, key: &str) -> (r: Option<String>)
    ensures
        r is Some <==> doc_strings(*doc).contains_key(key@),
        r is Some ==> r->0@ == doc_strings(*doc)[key@],
{
    match doc.get_str(key) {
        Ok(s) => Some(s.to_string()),
        Err(_) => None,
    }
}

/// Relies on bson's `Document::get_object_id` and `ObjectId::bytes`: the
/// identifier under `key` when it is present and a BSON object identifier,
/// and an error otherwise.
#[verifier::external_body]
fn document_object_id(doc: &Document, key: &str) -> (r: Option<[u8; 12]>)
    ensures
        r is Some <==> doc_object_ids(*doc).contains_key(key@),
        r is Some ==> r->0@ == doc_object_ids(*doc)[key@],
{
    match doc.get_object_id(key) {
        Ok(oid) => Some(ObjectId::bytes(&oid)),
        Err(_) => None,
    }
}

/// What a calendar record holds: the identifier's twelve bytes and the five
/// text fields.
pub struct CalendarModel {
    pub id: Seq<u8>,
    pub name: Seq<char>,
    pub color: Seq<char>,
    pub border_color: Seq<char>,
    pub background_color: Seq<char>,
    pub drag_background_color: Seq<char>,
}

/// A calendar as stored: an object identifier and five opaque strings.
#[derive(Debug)]
pub struct Calendar {
    pub id: [u8; 12],
    pub name: String,
    pub color: String,
    pub border_color: String,
    pub background_color: String,
    pub drag_background_color: String,
}

impl View for Calendar {
    type V = CalendarModel;

    open spec fn view(&self) -> CalendarModel {
        CalendarModel {
            id: self.id@,
            name: self.name@,
            color: self.color@,
            border_color: self.border_color@,
            background_color: self.background_color@,
            drag_background_color: self.drag_background_color@,
        }
    }
}

/// The first field of a calendar, in declaration order, that the document
/// lacks or holds with the wrong type; `None` when it has all six.
pub open spec fn invalid_field(d: Document) -> Option<Seq<char>> {
    if !doc_object_ids(d).contains_key("_id"@) {
        Some("_id"@)
    } else if !doc_strings(d).contains_key("name"@) {
        Some("name"@)
    } else if !doc_strings(d).contains_key("color"@) {
        Some("color"@)
    } else if !doc_strings(d).contains_key("borderColor"@) {
        Some("borderColor"@)
    } else if !doc_strings(d).contains_key("backgroundColor"@) {
        Some("backgroundColor"@)
    } else if !doc_strings(d).contains_key("dragBackgroundColor"@) {
        Some("dragBackgroundColor"@)
    } else {
        None
    }
}

/// A document that holds every field of a calendar with its type.
pub open spec fn is_calendar_document(d: Document) -> bool {
    invalid_field(d) is None
}

/// The calendar that a well-formed document holds.
pub open spec fn calendar_of(d: Document) -> CalendarModel {
    CalendarModel {
        id: doc_object_ids(d)["_id"@],
        name: doc_strings(d)["name"@],
        color: doc_strings(d)["color"@],
        border_color: doc_strings(d)["borderColor"@],
        background_color: doc_strings(d)["backgroundColor"@],
        drag_background_color: doc_strings(d)["dragBackgroundColor"@],
    }
}

/// A document that could not be read as a calendar, and the field at fault.
#[derive(Debug)]
pub struct MappingError {
    pub field: String,
}

/// The text of a mapping error on `field`.
pub open spec fn mapping_message(field: Seq<char>) -> Seq<char> {
    "missing or ill-typed field: "@ + field
}

impl MappingError {
    /// The error's text.
    pub fn message(&self) -> (r: String)
        ensures
            r@ == mapping_message(self.field@),
    {
        let mut r = String::from_str("missing or ill-typed field: ");
        r.append(self.field.as_str());
        r
    }
}

fn required_str(doc: &Document, key: &str) -> (r: Result<String, MappingError>)
    ensures
        match r {
            Ok(s) => doc_strings(*doc).contains_key(key@) && s@ == doc_strings(*doc)[key@],
            Err(e) => !doc_strings(*doc).contains_key(key@) && e.field@ == key@,
        },
{
    match document_str(doc, key) {
        Some(s) => Ok(s),
        None => Err(MappingError { field: String::from_str(key) }),
    }
}

/// Reads one calendar from a document: the identifier under `_id`, the text
/// fields under their camel-case names. Fails on the first field that is
/// absent or of the wrong type.
pub fn calendar_from_document(doc: &Document) -> (r: Result<Calendar, MappingError>)
    ensures
        match r {
            Ok(c) => is_calendar_document(*doc) && c@ == calendar_of(*doc),
            Err(e) => invalid_field(*doc) == Some(e.field@),
        },
{
    let id = match document_object_id(doc, "_id") {
        Some(b) => b,
        None => {
            return Err(MappingError { field: String::from_str("_id") });
        },
    };
    let name = required_str(doc, "name")?;
    let color = required_str(doc, "color")?;
    let border_color = required_str(doc, "borderColor")?;
    let background_color = required_str(doc, "backgroundColor")?;
    let drag_background_color = required_str(doc, "dragBackgroundColor")?;
    Ok(Calendar { id, name, color, border_color, background_color, drag_background_color })
}

/// Every document is a well-formed calendar.
pub open spec fn all_calendar_documents(docs: Seq<Document>) -> bool {
    forall|i: int| 0 <= i < docs.len() ==> #[trigger] is_calendar_document(docs[i])
}

/// The calendars that well-formed documents hold, in their order.
pub open spec fn calendars_of(docs: Seq<Document>) -> Seq<CalendarModel> {
    docs.map_values(|d: Document| calendar_of(d))
}

/// The models of a sequence of calendars.
pub open spec fn models(cs: Seq<Calendar>) -> Seq<CalendarModel> {
    cs.map_values(|c: Calendar| c@)
}

/// Reads all documents as calendars, in order. One document that is not a
/// calendar fails the whole read with that document's error: no partial
/// list is returned.
pub fn calendars_from_documents(docs: &Vec<Document>) -> (r: Result<Vec<Calendar>, MappingError>)
    ensures
        match r {
            Ok(cs) => all_calendar_documents(docs@) && models(cs@) == calendars_of(docs@),
            Err(e) => exists|i: int|
                0 <= i < docs@.len() && invalid_field(#[trigger] docs@[i]) == Some(e.field@) && (
                forall|j: int| 0 <= j < i ==> is_calendar_document(#[trigger] docs@[j])),
        },
        r is Ok <==> all_calendar_documents(docs@),
{
    let mut out: Vec<Calendar> = Vec::new();
    let mut i: usize = 0;
    while i < docs.len()
        invariant
            i <= docs@.len(),
            out@.len() == i,
            forall|j: int| 0 <= j < i ==> is_calendar_document(#[trigger] docs@[j]),
            forall|j: int| 0 <= j < i ==> #[trigger] out@[j]@ == calendar_of(docs@[j]),
        decreases docs@.len() - i,
    {
        match calendar_from_document(&docs[i]) {
            Ok(c) => {
                out.push(c);
            },
            Err(e) => {
                assert(invalid_field(docs@[i as int]) == Some(e.field@));
                assert(!is_calendar_document(docs@[i as int]));
                return Err(e);
            },
        }
        i += 1;
    }
    assert(models(out@) =~= calendars_of(docs@));
    Ok(out)
}

} // verus!
