//! JSON documents carried through the library, and the JSON Patch
//! operations applied to them.
//!
//! A document is opaque here: the library never looks inside one. In
//! contracts a document stands for its JSON text, and what the JSON crates
//! compute from documents is named by specification functions over such
//! texts, so that contracts can say which document a call produced.

use vstd::prelude::*;

verus! {

/// A JSON document.
pub type JsonValue = serde_json::Value;

/// One operation of an RFC 6902 patch.
pub type PatchOp = json_patch::PatchOperation;

#[verifier::external_type_specification]
#[verifier::external_body]
pub struct ExJsonValue(serde_json::Value);

#[verifier::external_type_specification]
#[verifier::external_body]
pub struct ExPatchOperation(json_patch::PatchOperation);

/// What a JSON document holds: its JSON text in compact form, as
/// `serde_json::to_string` writes it.
pub uninterp spec fn json_text(v: JsonValue) -> Seq<char>;

/// What a patch operation holds: its JSON text in compact form.
pub uninterp spec fn patch_op_text(op: PatchOp) -> Seq<char>;

/// The texts of the documents `vs`, in order.
pub open spec fn json_texts(vs: Seq<JsonValue>) -> Seq<Seq<char>> {
    vs.map_values(|v: JsonValue| json_text(v))
}

/// The texts of the operations `ops`, in order.
pub open spec fn patch_texts(ops: Seq<PatchOp>) -> Seq<Seq<char>> {
    ops.map_values(|op: PatchOp| patch_op_text(op))
}

/// The operations that a JSON array of `{op, path, ..}` objects stands
/// for, each as its text, or `None` where the array is not a well-formed
/// patch document. The array is given by the texts of its elements.
pub uninterp spec fn patch_parsed(ops: Seq<Seq<char>>) -> Option<Seq<Seq<char>>>;

/// The document that results from applying the operations `ops` in order
/// to the document `doc`, or `None` where one of the operations fails;
/// documents and operations as their texts.
pub uninterp spec fn json_patched(doc: Seq<char>, ops: Seq<Seq<char>>) -> Option<Seq<char>>;

/// The patch that the diff of the document `before` against the document
/// `after` yields; documents and operations as their texts. Numbers are
/// compared by value, not by text.
pub uninterp spec fn json_diff(before: Seq<char>, after: Seq<char>) -> Seq<Seq<char>>;

/// The JSON object that `text` reads as, as its text in compact form: the
/// object that `text` is the text of, and the object without members for
/// the text `null`. `None` for any other text.
pub uninterp spec fn json_object_parsed(text: Seq<char>) -> Option<Seq<char>>;

/// JSON `null`, through `serde_json::Value::Null`; its text is `null`.
#[verifier::external_body]
pub(crate) fn json_null() -> (r: JsonValue)
    ensures
        json_text(r) == "null"@,
{
    serde_json::Value::Null
}

/// `Clone::clone` of `serde_json::Value`: the copy is the same document.
pub assume_specification[ <serde_json::Value as Clone>::clone ](v: &serde_json::Value) -> (r: serde_json::Value)
    ensures
        r == *v,
;

/// The JSON object without members, through `serde_json::Map::new`; its
/// text is `{}`.
#[verifier::external_body]
pub(crate) fn json_empty_object() -> (r: JsonValue)
    ensures
        json_text(r) == "{}"@,
{
    serde_json::Value::Object(serde_json::Map::new())
}

/// `serde_json::from_value` at the type `Vec<json_patch::PatchOperation>`:
/// reads a JSON array as a patch document. The operations are those named
/// by [`patch_parsed`]; a malformed document gives the crate's account of
/// what is wrong with it, of which nothing is claimed.
#[verifier::external_body]
pub(crate) fn parse_patch(ops: &Vec<JsonValue>) -> (r: Result<Vec<PatchOp>, String>)
    ensures
        r.is_ok() == patch_parsed(json_texts(ops@)).is_some(),
        r matches Ok(parsed) ==> parsed@.map_values(|op: PatchOp| patch_op_text(op))
            == patch_parsed(json_texts(ops@)).unwrap(),
{
    match serde_json::from_value(serde_json::Value::Array(ops.clone())) {
        Ok(parsed) => Ok(parsed),
        Err(e) => Err(e.to_string()),
    }
}

/// `json_patch::patch_unsafe` on a copy of `doc`: applies the operations in
/// order and gives the patched document. Where an operation fails the
/// copy is thrown away, so that `doc` is as it was; the result is then the
/// crate's account of the failure, of which nothing is claimed. The
/// document is the one named by [`json_patched`].
#[verifier::external_body]
pub(crate) fn patch_document(doc: &JsonValue, ops: &Vec<PatchOp>) -> (r: Result<JsonValue, String>)
    ensures
        r.is_ok() == json_patched(json_text(*doc), patch_texts(ops@)).is_some(),
        r matches Ok(patched) ==> Some(json_text(patched)) == json_patched(
            json_text(*doc),
            patch_texts(ops@),
        ),
{
    let mut patched = doc.clone();
    match json_patch::patch_unsafe(&mut patched, ops) {
        Ok(()) => Ok(patched),
        Err(e) => Err(e.to_string()),
    }
}

/// `json_patch::diff`: a patch that leads from `before` to `after`. The
/// operations are those named by [`json_diff`]; nothing more is claimed of
/// them. The crate compares numbers by their value, so two documents that
/// differ only in how a number is written give the empty patch.
#[verifier::external_body]
pub(crate) fn diff_documents(before: &JsonValue, after: &JsonValue) -> (r: Vec<PatchOp>)
    ensures
        patch_texts(r@) == json_diff(json_text(*before), json_text(*after)),
{
    json_patch::diff(before, after).0
}

/// `serde_json::from_str` at the type `serde_json::Map`: reads a JSON
/// object from its text; the text `null` reads as the object without
/// members. The object is the one named by [`json_object_parsed`]; text
/// that the crate does not read so gives `None`.
#[verifier::external_body]
pub(crate) fn parse_json_object(text: &str) -> (r: Option<JsonValue>)
    ensures
        r.is_some() == json_object_parsed(text@).is_some(),
        r matches Some(object) ==> Some(json_text(object)) == json_object_parsed(text@),
{
    match serde_json::from_str::<serde_json::Map<String, serde_json::Value>>(text) {
        Ok(m) => Some(serde_json::Value::Object(m)),
        Err(_) => None,
    }
}

} // verus!
