//! The JSON form of calendars: an array of objects whose identifier is
//! written as lowercase hex.

use crate::document::{models, Calendar, CalendarModel};
use mongodb::bson::oid::ObjectId;
use vstd::prelude::*;

verus! {

/// The lowercase hex digit of a value below sixteen.
pub open spec fn hex_digit(n: int) -> char {
    seq!['0', '1', '2', '3', '4', '5', '6', '7', '8', '9', 'a', 'b', 'c', 'd', 'e', 'f'][n]
}

/// Two lowercase hex digits per byte, the high nibble first.
pub open spec fn hex_of(b: Seq<u8>) -> Seq<char>
    decreases b.len(),
{
    if b.len() == 0 {
        Seq::empty()
    } else {
        hex_of(b.drop_last()) + seq![hex_digit(b.last() as int / 16), hex_digit(b.last() as int % 16)]
    }
}

/// The JSON string literal of a text: quoted, with JSON's escapes.
pub uninterp spec fn json_string_of(s: Seq<char>) -> Seq<char>;

/// Relies on bson's `ObjectId::to_hex`, which is `hex::encode` of the
/// identifier's twelve bytes: two lowercase hex digits per byte.
#[verifier::external_body]
fn object_id_hex(bytes: [u8; 12]) -> (r: String)
    ensures
        r@ == hex_of(bytes@),
{
    ObjectId::from_bytes(bytes).to_hex()
}

/// Relies on serde_json's `to_string` on a `str`: the quoted and escaped
/// JSON string. It writes into a `Vec`, which cannot fail, so its error arm
/// is never taken.
#[verifier::external_body]
fn json_string(s: &str) -> (r: String)
    ensures
        r@ == json_string_of(s@),
{
    match serde_json::to_string(s) {
        Ok(t) => t,
        Err(_) => String::new(),
    }
}

/// One `"key":value` member of a JSON object whose value is a string.
pub open spec fn member_of(key: Seq<char>, value: Seq<char>) -> Seq<char> {
    json_string_of(key) + ":"@ + json_string_of(value)
}

/// The compact JSON object of a calendar, members in declaration order,
/// the identifier as hex under `id`.
pub open spec fn calendar_json_of(c: CalendarModel) -> Seq<char> {
    "{"@ + member_of("id"@, hex_of(c.id)) + ","@ + member_of("name"@, c.name) + ","@ + member_of(
        "color"@,
        c.color,
    ) + ","@ + member_of("borderColor"@, c.border_color) + ","@ + member_of(
        "backgroundColor"@,
        c.background_color,
    ) + ","@ + member_of("dragBackgroundColor"@, c.drag_background_color) + "}"@
}

/// The calendars' objects, separated by commas.
pub open spec fn json_items(cs: Seq<CalendarModel>) -> Seq<char>
    decreases cs.len(),
{
    if cs.len() == 0 {
        Seq::empty()
    } else if cs.len() == 1 {
        calendar_json_of(cs[0])
    } else {
        json_items(cs.drop_last()) + ","@ + calendar_json_of(cs.last())
    }
}

/// The compact JSON array of the calendars, in order.
pub open spec fn json_array_of(cs: Seq<CalendarModel>) -> Seq<char> {
    "["@ + json_items(cs) + "]"@
}

fn append_member(out: &mut String, key: &str, value: &str)
    ensures
        final(out)@ == old(out)@ + member_of(key@, value@),
{
    let k = json_string(key);
    let v = json_string(value);
    out.append(k.as_str());
    out.append(":");
    out.append(v.as_str());
}

/// The JSON object of one calendar.
pub fn calendar_json(c: &Calendar) -> (r: String)
    ensures
        r@ == calendar_json_of(c@),
{
    let id = object_id_hex(c.id);
    let mut out = String::from_str("{");
    append_member(&mut out, "id", id.as_str());
    out.append(",");
    append_member(&mut out, "name", c.name.as_str());
    out.append(",");
    append_member(&mut out, "color", c.color.as_str());
    out.append(",");
    append_member(&mut out, "borderColor", c.border_color.as_str());
    out.append(",");
    append_member(&mut out, "backgroundColor", c.background_color.as_str());
    out.append(",");
    append_member(&mut out, "dragBackgroundColor", c.drag_background_color.as_str());
    out.append("}");
    assert(out@ =~= calendar_json_of(c@));
    out
}

/// The JSON array of calendars, in order; `[]` when there are none.
pub fn calendars_json(cs: &Vec<Calendar>) -> (r: String)
    ensures
        r@ == json_array_of(models(cs@)),
        cs@.len() == 0 ==> r@ == "[]"@,
{
    let mut out = String::from_str("[");
    let ghost ms = models(cs@);
    let mut i: usize = 0;
    while i < cs.len()
        invariant
            i <= cs@.len(),
            ms == models(cs@),
            out@ == "["@ + json_items(ms.take(i as int)),
        decreases cs@.len() - i,
    {
        if i > 0 {
            out.append(",");
        }
        let item = calendar_json(&cs[i]);
        out.append(item.as_str());
        proof {
            let next = ms.take(i + 1);
            assert(next.drop_last() =~= ms.take(i as int));
            assert(next.last() == cs@[i as int]@);
            if i == 0 {
                assert(ms.take(0) =~= Seq::<CalendarModel>::empty());
            }
        }
        i += 1;
    }
    out.append("]");
    assert(ms.take(cs@.len() as int) =~= ms);
    proof {
        reveal_strlit("[");
        reveal_strlit("]");
        reveal_strlit("[]");
        if cs@.len() == 0 {
            assert(out@ =~= "[]"@);
        }
    }
    out
}

} // verus!
