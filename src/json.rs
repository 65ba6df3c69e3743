//! Structured JSON values and JSON Patch (RFC 6902), as provided by `serde_json`
//! and `json_patch`.
use vstd::prelude::*;

verus! {

#[verifier::external_type_specification]
#[verifier::external_body]
pub struct ExValue(serde_json::Value);

#[verifier::external_type_specification]
#[verifier::external_body]
pub struct ExNumber(serde_json::Number);

#[verifier::external_type_specification]
#[verifier::external_body]
pub struct ExPatchOperation(json_patch::PatchOperation);

#[verifier::external_type_specification]
#[verifier::external_body]
pub struct ExPatchError(json_patch::PatchError);

/// `serde_json::Value` derives `Clone`: the copy equals the value copied.
pub assume_specification[ <serde_json::Value as Clone>::clone ](v: &serde_json::Value) -> (r:
    serde_json::Value)
    ensures
        r == *v,
;

/// Relies on `serde_json::Value::Null`: the JSON null value.
#[verifier::external_body]
pub(crate) fn json_null() -> (r: serde_json::Value) {
    serde_json::Value::Null
}

/// What `serde_json::from_value` makes of a value as one patch operation, or
/// `None` when the value is not a valid operation object.
pub uninterp spec fn patch_op_of(v: serde_json::Value) -> Option<json_patch::PatchOperation>;

/// Relies on `serde_json::from_value::<json_patch::PatchOperation>`: decoding
/// depends on the value alone.
#[verifier::external_body]
fn decode_patch_op(v: &serde_json::Value) -> (r: Result<
    json_patch::PatchOperation,
    serde_json::Error,
>)
    ensures
        match r {
            Ok(op) => patch_op_of(*v) == Some(op),
            Err(_) => patch_op_of(*v) is None,
        },
{
    serde_json::from_value(v.clone())
}

/// The operations that a list of values decodes to, or `None` when one of them
/// is not an operation.
pub open spec fn decoded_ops(vs: Seq<serde_json::Value>) -> Option<Seq<json_patch::PatchOperation>>
    decreases vs.len(),
{
    if vs.len() == 0 {
        Some(seq![])
    } else {
        match (decoded_ops(vs.drop_last()), patch_op_of(vs.last())) {
            (Some(ops), Some(op)) => Some(ops.push(op)),
            _ => None,
        }
    }
}

/// Decodes each value of a list as a patch operation; the first value that is not
/// one stops decoding with its error.
pub fn decode_patch(vs: &Vec<serde_json::Value>) -> (r: Result<
    Vec<json_patch::PatchOperation>,
    serde_json::Error,
>)
    ensures
        match r {
            Ok(ops) => decoded_ops(vs@) == Some(ops@),
            Err(_) => decoded_ops(vs@) is None,
        },
{
    let mut ops: Vec<json_patch::PatchOperation> = Vec::new();
    let mut i: usize = 0;
    while i < vs.len()
        invariant
            i <= vs@.len(),
            decoded_ops(vs@.subrange(0, i as int)) == Some(ops@),
        decreases vs@.len() - i,
    {
        proof {
            let s = vs@.subrange(0, i as int + 1);
            assert(s.drop_last() =~= vs@.subrange(0, i as int));
        }
        match decode_patch_op(&vs[i]) {
            Ok(op) => {
                ops.push(op);
            },
            Err(e) => {
                proof {
                    lemma_decoded_ops_prefix_none(vs@, i as int + 1);
                }
                return Err(e);
            },
        }
        i = i + 1;
    }
    assert(vs@.subrange(0, vs@.len() as int) =~= vs@);
    Ok(ops)
}

/// Once a prefix fails to decode, so does the whole list.
proof fn lemma_decoded_ops_prefix_none(vs: Seq<serde_json::Value>, n: int)
    requires
        0 <= n <= vs.len(),
        decoded_ops(vs.subrange(0, n)) is None,
    ensures
        decoded_ops(vs) is None,
    decreases vs.len() - n,
{
    if n < vs.len() {
        let s = vs.subrange(0, n + 1);
        assert(s.drop_last() =~= vs.subrange(0, n));
        lemma_decoded_ops_prefix_none(vs, n + 1);
    } else {
        assert(vs.subrange(0, n) =~= vs);
    }
}

/// What applying the operations in order makes of a document: the patched
/// document, or `None` when one of the operations fails.
pub uninterp spec fn patched(doc: serde_json::Value, ops: Seq<json_patch::PatchOperation>) -> Option<
    serde_json::Value,
>;

/// Relies on `json_patch::patch_unsafe`: the operations are applied in order, and
/// the first one that fails stops it with an error. After an error the document
/// may be partly patched, so callers patch a copy and keep it only on success.
#[verifier::external_body]
pub(crate) fn apply_patch(doc: &mut serde_json::Value, ops: &Vec<json_patch::PatchOperation>) -> (r:
    Result<(), json_patch::PatchError>)
    ensures
        match r {
            Ok(()) => patched(*old(doc), ops@) == Some(*final(doc)),
            Err(_) => patched(*old(doc), ops@) is None,
        },
{
    json_patch::patch_unsafe(doc, ops)
}

/// Relies on the `Display` of `json_patch::PatchError`: a description of the
/// failed operation.
#[verifier::external_body]
pub(crate) fn describe_patch_error(e: &json_patch::PatchError) -> (r: String) {
    e.to_string()
}

} // verus!
