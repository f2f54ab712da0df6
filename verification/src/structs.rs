//! The typed notification payloads: each is decoded from an untyped
//! structured payload once the method name says which one to expect, and
//! is consumed by exactly one capability call.

use vstd::prelude::*;
use crate::errors::{DecodeError, Field};
use crate::json::{spec_obj_get, json_obj_get, Json};

verus! {

/// An opaque string-keyed identifier of one open editing view.
#[derive(Clone, Debug, PartialEq, Eq)]
pub struct ViewId(pub String);

impl ViewId {
    /// Builds a view identifier from its string form.
    pub fn from_str(s: &str) -> (v: ViewId)
        ensures
            v.0@ == s@,
    {
        ViewId(s.to_string())
    }
}

/// The `scroll_to` notification: move the viewport of one view to a
/// row/column coordinate.  The adapter does not bounds-check the
/// coordinates; validating them against the document is the capability
/// implementation's concern.
///
/// On the wire the column field is named `col`; in memory it is `column`.
/// This renaming is the only divergence between the wire shape and this
/// struct.
#[derive(Clone, Debug, PartialEq, Eq)]
pub struct ScrollTo {
    pub line: u64,
    pub column: u64,
    pub view_id: ViewId,
}

/// A description of a content/view change to apply.  Its structure is
/// owned by a collaborator outside this core: beyond being a wire
/// object, the payload is treated as atomic and kept as it arrived.
#[derive(Debug, PartialEq, Eq)]
pub struct Update {
    /// The fields of the wire object, unchanged.
    pub content: Vec<(String, Json)>,
}

/// A style/formatting definition to register.  As with [`Update`], the
/// structure is owned by a collaborator outside this core; the payload is
/// atomic here and kept as it arrived.
#[derive(Debug, PartialEq, Eq)]
pub struct Style {
    /// The fields of the wire object, unchanged.
    pub content: Vec<(String, Json)>,
}

/// What decoding a `scroll_to` payload yields: the message whose fields
/// are the wire's `line`, `col` and `view_id` values, or the first
/// mismatch in wire order.
pub open spec fn spec_decode_scroll_to(v: Json) -> Result<ScrollTo, DecodeError> {
    match v {
        Json::Obj(fields) => match spec_obj_get(fields@, "line"@) {
            Some(Json::UInt(line)) => match spec_obj_get(fields@, "col"@) {
                Some(Json::UInt(column)) => match spec_obj_get(fields@, "view_id"@) {
                    Some(Json::Str(s)) => Ok(ScrollTo { line, column, view_id: ViewId(s) }),
                    Some(_) => Err(DecodeError::WrongFieldType(Field::ViewId)),
                    None => Err(DecodeError::MissingField(Field::ViewId)),
                },
                Some(_) => Err(DecodeError::WrongFieldType(Field::Col)),
                None => Err(DecodeError::MissingField(Field::Col)),
            },
            Some(_) => Err(DecodeError::WrongFieldType(Field::Line)),
            None => Err(DecodeError::MissingField(Field::Line)),
        },
        _ => Err(DecodeError::NotAnObject),
    }
}

/// The shape a payload must have for `scroll_to` decoding to succeed: an
/// object whose `line` and `col` fields hold unsigned integers and whose
/// `view_id` field holds a string.
pub open spec fn scroll_to_wellformed(v: Json) -> bool {
    &&& v is Obj
    &&& (spec_obj_get(v->Obj_0@, "line"@) matches Some(lj) && lj is UInt)
    &&& (spec_obj_get(v->Obj_0@, "col"@) matches Some(cj) && cj is UInt)
    &&& (spec_obj_get(v->Obj_0@, "view_id"@) matches Some(vj) && vj is Str)
}

/// `v` is a wire form of the message `m`: an object whose `line`, `col`
/// and `view_id` fields carry exactly `m`'s line, column and view
/// identifier.
pub open spec fn is_scroll_to_wire(v: Json, m: ScrollTo) -> bool {
    &&& v is Obj
    &&& spec_obj_get(v->Obj_0@, "line"@) == Some(Json::UInt(m.line))
    &&& spec_obj_get(v->Obj_0@, "col"@) == Some(Json::UInt(m.column))
    &&& (spec_obj_get(v->Obj_0@, "view_id"@) matches Some(Json::Str(s)) && s@ == m.view_id.0@)
}

impl ScrollTo {
    /// Decodes the wire payload of a `scroll_to` notification.
    pub fn from_json(v: &Json) -> (r: Result<ScrollTo, DecodeError>)
        ensures
            r == spec_decode_scroll_to(*v),
    {
        match v {
            Json::Obj(fields) => {
                let line: u64 = match json_obj_get(fields, "line") {
                    Some(j) => match j {
                        Json::UInt(n) => *n,
                        _ => { return Err(DecodeError::WrongFieldType(Field::Line)); },
                    },
                    None => { return Err(DecodeError::MissingField(Field::Line)); },
                };
                let column: u64 = match json_obj_get(fields, "col") {
                    Some(j) => match j {
                        Json::UInt(n) => *n,
                        _ => { return Err(DecodeError::WrongFieldType(Field::Col)); },
                    },
                    None => { return Err(DecodeError::MissingField(Field::Col)); },
                };
                let view_id: ViewId = match json_obj_get(fields, "view_id") {
                    Some(j) => match j {
                        Json::Str(s) => ViewId(s.clone()),
                        _ => { return Err(DecodeError::WrongFieldType(Field::ViewId)); },
                    },
                    None => { return Err(DecodeError::MissingField(Field::ViewId)); },
                };
                Ok(ScrollTo { line, column, view_id })
            },
            _ => Err(DecodeError::NotAnObject),
        }
    }

    /// Re-serializes the message into its wire form: an object with
    /// exactly the fields `line`, `col` and `view_id`, the column going
    /// back out under its wire name `col`.
    pub fn to_json(&self) -> (r: Json)
        ensures
            is_scroll_to_wire(r, *self),
            r->Obj_0@.len() == 3,
    {
        proof {
            reveal_strlit("line");
            reveal_strlit("col");
            reveal_strlit("view_id");
        }
        let mut fields: Vec<(String, Json)> = Vec::new();
        fields.push(("line".to_string(), Json::UInt(self.line)));
        fields.push(("col".to_string(), Json::UInt(self.column)));
        fields.push(("view_id".to_string(), Json::Str(self.view_id.0.clone())));
        proof {
            reveal_with_fuel(crate::json::spec_obj_get_from, 4);
            let s = fields@;
            assert(s.len() == 3);
            assert("line"@.len() == 4 && "col"@.len() == 3 && "view_id"@.len() == 7);
            assert(s[0].0@ == "line"@ && s[1].0@ == "col"@ && s[2].0@ == "view_id"@);
            assert(spec_obj_get(s, "line"@) == Some(Json::UInt(self.line)));
            assert(spec_obj_get(s, "col"@) == Some(Json::UInt(self.column)));
            assert(spec_obj_get(s, "view_id"@) == Some(Json::Str(self.view_id.0)));
        }
        Json::Obj(fields)
    }
}

/// What decoding an `update` payload yields: the wire object itself,
/// kept atomic, or a rejection of a payload that is no object.
pub open spec fn spec_decode_update(v: Json) -> Result<Update, DecodeError> {
    match v {
        Json::Obj(fields) => Ok(Update { content: fields }),
        _ => Err(DecodeError::NotAnObject),
    }
}

impl Update {
    /// Decodes the wire payload of an `update` notification.
    pub fn from_json(v: Json) -> (r: Result<Update, DecodeError>)
        ensures
            r == spec_decode_update(v),
    {
        match v {
            Json::Obj(fields) => Ok(Update { content: fields }),
            _ => Err(DecodeError::NotAnObject),
        }
    }

    /// Re-serializes the message into the wire object it arrived as.
    pub fn to_json(self) -> (r: Json)
        ensures
            r == Json::Obj(self.content),
    {
        Json::Obj(self.content)
    }
}

/// What decoding a `def_style` payload yields: the wire object itself,
/// kept atomic, or a rejection of a payload that is no object.
pub open spec fn spec_decode_style(v: Json) -> Result<Style, DecodeError> {
    match v {
        Json::Obj(fields) => Ok(Style { content: fields }),
        _ => Err(DecodeError::NotAnObject),
    }
}

impl Style {
    /// Decodes the wire payload of a `def_style` notification.
    pub fn from_json(v: Json) -> (r: Result<Style, DecodeError>)
        ensures
            r == spec_decode_style(v),
    {
        match v {
            Json::Obj(fields) => Ok(Style { content: fields }),
            _ => Err(DecodeError::NotAnObject),
        }
    }

    /// Re-serializes the message into the wire object it arrived as.
    pub fn to_json(self) -> (r: Json)
        ensures
            r == Json::Obj(self.content),
    {
        Json::Obj(self.content)
    }
}

/// A decoded `scroll_to` message pins every wire field: in particular
/// its `column` equals the wire's `col` value.
pub proof fn lemma_scroll_to_decode_fields(v: Json, m: ScrollTo)
    requires
        spec_decode_scroll_to(v) == Ok::<ScrollTo, DecodeError>(m),
    ensures
        is_scroll_to_wire(v, m),
{
}

/// Any wire form of a message decodes back to it: the line, the column
/// and the view identifier's text survive a serialization round trip.
pub proof fn lemma_scroll_to_round_trip(w: Json, m: ScrollTo)
    requires
        is_scroll_to_wire(w, m),
    ensures
        (spec_decode_scroll_to(w) matches Ok(m2)
            && m2.line == m.line
            && m2.column == m.column
            && m2.view_id.0@ == m.view_id.0@),
{
}

/// Deserialization followed by re-serialization reconstructs an
/// equivalent structured value: any wire form `w` of the message decoded
/// from `v` agrees with `v` on all three wire fields.
pub proof fn lemma_scroll_to_reserialize_equivalent(v: Json, w: Json, m: ScrollTo)
    requires
        spec_decode_scroll_to(v) == Ok::<ScrollTo, DecodeError>(m),
        is_scroll_to_wire(w, m),
    ensures
        spec_obj_get(w->Obj_0@, "line"@) == spec_obj_get(v->Obj_0@, "line"@),
        spec_obj_get(w->Obj_0@, "col"@) == spec_obj_get(v->Obj_0@, "col"@),
        (spec_obj_get(w->Obj_0@, "view_id"@) matches Some(Json::Str(sw))
            && (spec_obj_get(v->Obj_0@, "view_id"@) matches Some(Json::Str(sv))
                && sw@ == sv@)),
{
    lemma_scroll_to_decode_fields(v, m);
}

/// `scroll_to` decoding succeeds exactly on well-formed payloads; on
/// every other payload it reports a decode error rather than a value.
pub proof fn lemma_scroll_to_decode_ok_iff(v: Json)
    ensures
        spec_decode_scroll_to(v) is Ok <==> scroll_to_wellformed(v),
{
}

/// `update` decoding succeeds exactly on wire objects.
pub proof fn lemma_update_decode_ok_iff(v: Json)
    ensures
        spec_decode_update(v) is Ok <==> v is Obj,
{
}

/// `def_style` decoding succeeds exactly on wire objects.
pub proof fn lemma_style_decode_ok_iff(v: Json)
    ensures
        spec_decode_style(v) is Ok <==> v is Obj,
{
}

} // verus!
