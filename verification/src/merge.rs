//! The merge operator: folds pending structured patches into a stored
//! document.
//!
//! The engine calls the operator with the value it holds for a key, if any,
//! and the operands that were merged since. Each operand is a JSON Patch; the
//! stored value is a JSON document.

use vstd::prelude::*;
use crate::text::opt_bytes;

verus! {

/// `serde_json::Value`: a JSON document. The operator carries documents
/// through and never looks inside one.
#[verifier::external_type_specification]
#[verifier::external_body]
pub struct ExValue(serde_json::Value);

/// `json_patch::Patch`: a list of patch operations.
#[verifier::external_type_specification]
#[verifier::external_body]
pub struct ExPatch(json_patch::Patch);

/// `json_patch::PatchOperation`: one operation of a patch, which a patch
/// gives access to.
#[verifier::external_type_specification]
#[verifier::external_body]
pub struct ExPatchOperation(json_patch::PatchOperation);

/// The document that `serde_json::from_slice` reads from `bytes`, or `None`
/// where it reports an error.
pub uninterp spec fn parsed_json(bytes: Seq<u8>) -> Option<serde_json::Value>;

/// The patch that `serde_json::from_value` reads from `value`, or `None`
/// where the value does not have the structure of a patch.
pub uninterp spec fn parsed_patch(value: serde_json::Value) -> Option<json_patch::Patch>;

/// The document that `json_patch::patch_unsafe` leaves where it succeeds on
/// `doc` with `patch`, or `None` where it reports an error.
pub uninterp spec fn patched_json(doc: serde_json::Value, patch: json_patch::Patch) -> Option<
    serde_json::Value,
>;

/// The bytes that `serde_json::to_vec` writes for `doc`, or `None` where it
/// reports an error.
pub uninterp spec fn json_bytes(doc: serde_json::Value) -> Option<Seq<u8>>;

/// The document `serde_json::Value::Array` builds from `items`.
pub uninterp spec fn json_array(items: Seq<serde_json::Value>) -> serde_json::Value;

/// Calls `serde_json::from_slice` for a `serde_json::Value`. The result is
/// the document read, or `None` where the bytes are not JSON; the error's
/// detail is dropped.
#[verifier::external_body]
fn parse_json(bytes: &[u8]) -> (r: Option<serde_json::Value>)
    ensures
        r == parsed_json(bytes@),
{
    serde_json::from_slice::<serde_json::Value>(bytes).ok()
}

/// Calls `serde_json::from_value` for a `json_patch::Patch`. The result is
/// the patch read, or `None` where the value is no list of patch operations;
/// the error's detail is dropped.
#[verifier::external_body]
fn parse_patch(value: serde_json::Value) -> (r: Option<json_patch::Patch>)
    ensures
        r == parsed_patch(value),
{
    serde_json::from_value::<json_patch::Patch>(value).ok()
}

/// Calls `clone` on a `serde_json::Value`. The result is a document equal
/// to the one given.
#[verifier::external_body]
fn copy_of(doc: &serde_json::Value) -> (copy: serde_json::Value)
    ensures
        copy == *doc,
{
    doc.clone()
}

/// Calls `json_patch::patch_unsafe`, which applies the operations in order
/// and stops at the first that fails. Returns `true` where every operation
/// applied, and the document is then the patched one. Where it returns
/// `false`, the document holds what the operations before the failing one
/// left, and part of the failing one: nothing is said of it.
#[verifier::external_body]
fn patch_in_place(doc: &mut serde_json::Value, patch: &json_patch::Patch) -> (applied: bool)
    ensures
        applied == patched_json(*old(doc), *patch).is_some(),
        applied ==> *final(doc) == patched_json(*old(doc), *patch).unwrap(),
{
    json_patch::patch_unsafe(doc, patch).is_ok()
}

/// Calls `serde_json::to_vec`. The result is the document's JSON text, or
/// `None` where serialising reports an error.
#[verifier::external_body]
fn serialize_json(doc: &serde_json::Value) -> (r: Option<Vec<u8>>)
    ensures
        r is Some == json_bytes(*doc) is Some,
        r is Some ==> r.unwrap()@ == json_bytes(*doc).unwrap(),
{
    serde_json::to_vec(doc).ok()
}

/// Builds a JSON array with `serde_json::Value::Array`.
#[verifier::external_body]
fn array_of(items: Vec<serde_json::Value>) -> (r: serde_json::Value)
    ensures
        r == json_array(items@),
{
    serde_json::Value::Array(items)
}

/// The document a merge starts from: the stored value where there is one and
/// it is JSON, the empty array otherwise.
pub open spec fn merge_base(existing: Option<Seq<u8>>) -> serde_json::Value {
    match existing {
        Some(bytes) => match parsed_json(bytes) {
            Some(doc) => doc,
            None => json_array(Seq::empty()),
        },
        None => json_array(Seq::empty()),
    }
}

/// One operand applied to a document. An operand that is not JSON, is no
/// patch, or does not apply leaves the document as it is.
pub open spec fn merge_step(doc: serde_json::Value, operand: Seq<u8>) -> serde_json::Value {
    match parsed_json(operand) {
        Some(value) => match parsed_patch(value) {
            Some(patch) => match patched_json(doc, patch) {
                Some(next) => next,
                None => doc,
            },
            None => doc,
        },
        None => doc,
    }
}

/// The operands applied to a document one after the other, first to last.
pub open spec fn merge_all(doc: serde_json::Value, operands: Seq<Seq<u8>>) -> serde_json::Value
    decreases operands.len(),
{
    if operands.len() == 0 {
        doc
    } else {
        merge_step(merge_all(doc, operands.drop_last()), operands.last())
    }
}

/// The byte strings that a list of operands holds.
pub open spec fn operand_bytes(operands: Seq<Vec<u8>>) -> Seq<Seq<u8>> {
    operands.map_values(|operand: Vec<u8>| operand@)
}

/// Applies one operand to the document in place. The patch is applied to
/// a copy, which takes the document's place only where every operation
/// applied: a patch that fails half way leaves no trace.
pub fn apply_operand(doc: &mut serde_json::Value, operand: &[u8])
    ensures
        *final(doc) == merge_step(*old(doc), operand@),
{
    if let Some(value) = parse_json(operand) {
        if let Some(patch) = parse_patch(value) {
            let mut patched = copy_of(doc);
            if patch_in_place(&mut patched, &patch) {
                *doc = patched;
            }
        }
    }
}

/// Applies the operands to the document in place, first to last.
pub fn apply_operands(doc: &mut serde_json::Value, operands: &Vec<Vec<u8>>)
    ensures
        *final(doc) == merge_all(*old(doc), operand_bytes(operands@)),
{
    let ghost start = *doc;
    let ghost all = operand_bytes(operands@);
    let mut i: usize = 0;
    while i < operands.len()
        invariant
            i <= operands.len(),
            all == operand_bytes(operands@),
            *doc == merge_all(start, all.take(i as int)),
        decreases operands.len() - i,
    {
        apply_operand(doc, operands[i].as_slice());
        proof {
            assert(all.take(i + 1).drop_last() =~= all.take(i as int));
            assert(all.take(i + 1).last() == operands[i as int]@);
        }
        i += 1;
    }
    proof {
        assert(all.take(operands.len() as int) =~= all);
    }
}

/// What the merge operator writes for a stored value and a list of
/// operands: the JSON text of the merged document, or `None` where the
/// document cannot be written out.
pub open spec fn merged_bytes(existing: Option<Seq<u8>>, operands: Seq<Seq<u8>>) -> Option<
    Seq<u8>,
> {
    json_bytes(merge_all(merge_base(existing), operands))
}

/// Whether a document can be written out and what is written reads back as
/// the same document.
pub open spec fn reads_back(doc: serde_json::Value) -> bool {
    json_bytes(doc) is Some && parsed_json(json_bytes(doc).unwrap()) == Some(doc)
}

/// The name under which the merge operator is registered with the engine.
pub fn operator_name() -> (name: String)
    ensures
        name@ == "json_merge"@,
{
    "json_merge".to_owned()
}

/// The merge operator. Starts from the stored value read as JSON (from the
/// empty array where there is none or it is not JSON), applies every operand
/// in order, and returns the resulting document's JSON text. The key takes
/// no part. The result is `None` only where the document cannot be written
/// out.
pub fn json_merge(_new_key: &[u8], existing_val: Option<&[u8]>, operands: &Vec<Vec<u8>>) -> (merged:
    Option<Vec<u8>>)
    ensures
        opt_bytes(merged) == merged_bytes(view_of(existing_val), operand_bytes(operands@)),
{
    let mut doc = match existing_val {
        Some(bytes) => match parse_json(bytes) {
            Some(doc) => doc,
            None => array_of(Vec::new()),
        },
        None => array_of(Vec::new()),
    };
    apply_operands(&mut doc, operands);
    serialize_json(&doc)
}

/// The bytes behind an optional slice.
pub open spec fn view_of(bytes: Option<&[u8]>) -> Option<Seq<u8>> {
    match bytes {
        Some(b) => Some(b@),
        None => None,
    }
}

/// Merging is a left fold: applying the operands `first + second` to a
/// document gives the document that applying `first` and then, to the
/// result, `second` gives.
pub proof fn lemma_merge_in_two_steps(
    doc: serde_json::Value,
    first: Seq<Seq<u8>>,
    second: Seq<Seq<u8>>,
)
    ensures
        merge_all(doc, first + second) == merge_all(merge_all(doc, first), second),
    decreases second.len(),
{
    if second.len() == 0 {
        assert(first + second =~= first);
    } else {
        lemma_merge_in_two_steps(doc, first, second.drop_last());
        assert((first + second).drop_last() =~= first + second.drop_last());
        assert((first + second).last() == second.last());
    }
}

/// Merging in two steps on stored bytes: where the document that merging
/// `first` gives reads back as itself, merging `second` onto the bytes
/// written for it gives the bytes that merging `first + second` at once
/// gives.
pub proof fn lemma_merge_in_two_steps_on_bytes(
    existing: Option<Seq<u8>>,
    first: Seq<Seq<u8>>,
    second: Seq<Seq<u8>>,
)
    requires
        reads_back(merge_all(merge_base(existing), first)),
    ensures
        merged_bytes(merged_bytes(existing, first), second) == merged_bytes(
            existing,
            first + second,
        ),
{
    lemma_merge_in_two_steps(merge_base(existing), first, second);
}

} // verus!
