//! The boundary to the external JSON serializer.
//!
//! The serializer (the `serde_json` crate, with its `preserve_order` feature, so that
//! object fields keep declaration order) does all encoding and escaping.  Each item
//! here either declares one of its types, names what one of its values holds, or wraps
//! one call; the contracts state what the crate's source shows, over the
//! specification functions of [`crate::text`].  [`to_serde`] is verified code: it
//! carries a [`JsonValue`] tree across the boundary one constructor at a time.

use crate::text::{compact_text, pretty_text};
use crate::value::{JsonModel, JsonValue};
use vstd::prelude::*;

verus! {

broadcast use vstd::std_specs::vec::group_vec_axioms, vstd::seq::group_seq_axioms;

#[verifier::external_type_specification]
#[verifier::external_body]
pub struct ExValue(serde_json::Value);

#[verifier::external_type_specification]
#[verifier::external_body]
pub struct ExError(serde_json::Error);

#[verifier::external_type_specification]
#[verifier::external_body]
#[verifier::reject_recursive_types(K)]
#[verifier::reject_recursive_types(V)]
pub struct ExSerdeMap<K, V>(serde_json::Map<K, V>);

/// The tree of plain values that a `serde_json::Value` holds.
pub uninterp spec fn value_model(v: serde_json::Value) -> JsonModel;

/// The entries that a `serde_json::Map` holds, in order.
pub uninterp spec fn map_entries(m: serde_json::Map<String, serde_json::Value>) -> Seq<
    (Seq<char>, JsonModel),
>;

/// The serializer's description of an error value.
pub uninterp spec fn error_description(e: serde_json::Error) -> Seq<char>;

/// The models of a vector of serializer values, element for element.
pub open spec fn models_of(items: Seq<serde_json::Value>) -> Seq<JsonModel> {
    Seq::new(items.len(), |i: int| value_model(items[i]))
}

/// Relies on `serde_json::Value::Null`: the unit variant holding the null value.
#[verifier::external_body]
fn json_null() -> (r: serde_json::Value)
    ensures
        value_model(r) == JsonModel::Null,
{
    serde_json::Value::Null
}

/// Relies on `serde_json::Value::Bool`: the variant holding a boolean.
#[verifier::external_body]
fn json_bool(b: bool) -> (r: serde_json::Value)
    ensures
        value_model(r) == JsonModel::Bool(b),
{
    serde_json::Value::Bool(b)
}

/// Relies on `serde_json::Value::from` for `i64`: a number holding exactly `i`.
#[verifier::external_body]
fn json_int(i: i64) -> (r: serde_json::Value)
    ensures
        value_model(r) == JsonModel::Int(i as int),
{
    serde_json::Value::from(i)
}

/// Relies on `serde_json::Value::String`: the variant holding a string.
#[verifier::external_body]
fn json_string(s: String) -> (r: serde_json::Value)
    ensures
        value_model(r) == JsonModel::Str(s@),
{
    serde_json::Value::String(s)
}

/// Relies on `serde_json::Value::Array`: the variant holding the given elements in order.
#[verifier::external_body]
fn json_array(items: Vec<serde_json::Value>) -> (r: serde_json::Value)
    ensures
        value_model(r) == JsonModel::Arr(models_of(items@)),
{
    serde_json::Value::Array(items)
}

/// Relies on `serde_json::Map::new`: the new map holds no entries.
#[verifier::external_body]
fn map_new() -> (r: serde_json::Map<String, serde_json::Value>)
    ensures
        map_entries(r) == Seq::<(Seq<char>, JsonModel)>::empty(),
{
    serde_json::Map::new()
}

/// Relies on `serde_json::Map::insert` with `preserve_order`: a key not yet present is
/// appended at the end, existing entries keep their order.
#[verifier::external_body]
fn map_append(m: &mut serde_json::Map<String, serde_json::Value>, k: String, v: serde_json::Value)
    ensures
        (forall|i: int|
            0 <= i < map_entries(*old(m)).len() ==> (#[trigger] map_entries(*old(m))[i]).0 != k@)
            ==> map_entries(*final(m)) == map_entries(*old(m)).push((k@, value_model(v))),
{
    let _ = m.insert(k, v);
}

/// Relies on `serde_json::Value::Object`: the variant holding the map's entries in order.
#[verifier::external_body]
fn json_object(m: serde_json::Map<String, serde_json::Value>) -> (r: serde_json::Value)
    ensures
        value_model(r) == JsonModel::Obj(map_entries(m)),
{
    serde_json::Value::Object(m)
}

/// Relies on `serde_json::to_string`: the result is `Ok`, holding the compact
/// encoding of the value, with minimal separators and no added whitespace.
///
/// Serializing a `serde_json::Value` cannot fail: its `Serialize` implementation
/// only forwards the tree (its maps carry `String` keys, so no key can be
/// rejected), and `to_string` writes into a `Vec<u8>`, whose writes are
/// infallible.
#[verifier::external_body]
pub(crate) fn serialize_compact(v: &serde_json::Value) -> (r: Result<String, serde_json::Error>)
    ensures
        r is Ok,
        r matches Ok(s) ==> s@ == compact_text(value_model(*v)),
{
    serde_json::to_string(v)
}

/// Relies on `serde_json::to_string_pretty`: the result is `Ok`, holding the pretty
/// encoding of the value, indented two spaces per nesting level.
///
/// It cannot fail, for the same reason as `serialize_compact`: a `Value` only
/// forwards its tree, and the sink is a `Vec<u8>`.
#[verifier::external_body]
pub(crate) fn serialize_pretty(v: &serde_json::Value) -> (r: Result<String, serde_json::Error>)
    ensures
        r is Ok,
        r matches Ok(s) ==> s@ == pretty_text(value_model(*v), 0),
{
    serde_json::to_string_pretty(v)
}

/// Relies on `serde_json::Error`'s `Display` implementation: the serializer's own
/// description of the failure.
///
/// The named result is relied on only for errors the serializer itself constructs,
/// whose text is a function of the error value alone.  An error wrapping an
/// OS-level I/O failure formats by asking the OS for its message; no such error
/// can reach this function, since the library only serializes into a growable
/// buffer.
#[verifier::external_body]
pub(crate) fn describe_error(e: &serde_json::Error) -> (r: String)
    ensures
        r@ == error_description(*e),
{
    format!("{}", e)
}

/// Carries a tree across the boundary: the serializer value returned holds exactly
/// the model of `v`.
pub(crate) fn to_serde(v: &JsonValue) -> (r: serde_json::Value)
    requires
        v@.wf(),
    ensures
        value_model(r) == v@,
    decreases *v,
{
    match v {
        JsonValue::Null => json_null(),
        JsonValue::Bool(b) => json_bool(*b),
        JsonValue::Int(i) => json_int(*i),
        JsonValue::Str(s) => json_string(s.clone()),
        JsonValue::Arr(items) => {
            let mut out: Vec<serde_json::Value> = Vec::new();
            let mut idx: usize = 0;
            while idx < items.len()
                invariant
                    v@.wf(),
                    *v == JsonValue::Arr(*items),
                    idx <= items.len(),
                    out@.len() == idx as int,
                    forall|k: int|
                        0 <= k < idx as int ==> value_model(#[trigger] out@[k]) == crate::value::model_of(
                            items[k],
                        ),
                decreases items.len() - idx,
            {
                assert(v@ matches JsonModel::Arr(ms) && ms[idx as int] == crate::value::model_of(
                    items[idx as int],
                ));
                let child = to_serde(&items[idx]);
                out.push(child);
                idx += 1;
            }
            let r = json_array(out);
            assert(models_of(out@) =~= v@->Arr_0);
            r
        },
        JsonValue::Obj(entries) => {
            let mut m = map_new();
            let mut idx: usize = 0;
            while idx < entries.len()
                invariant
                    v@.wf(),
                    *v == JsonValue::Obj(*entries),
                    idx <= entries.len(),
                    map_entries(m).len() == idx as int,
                    forall|k: int|
                        0 <= k < idx as int ==> #[trigger] map_entries(m)[k] == (
                        entries[k].0@,
                        crate::value::model_of(entries[k].1),
                        ),
                decreases entries.len() - idx,
            {
                assert(v@ matches JsonModel::Obj(es) && es[idx as int] == (
                    entries[idx as int].0@,
                    crate::value::model_of(entries[idx as int].1),
                ) && es[idx as int].1.wf());
                let child = to_serde(&entries[idx].1);
                let key = entries[idx].0.clone();
                proof {
                    let es = v@->Obj_0;
                    assert forall|i: int| 0 <= i < map_entries(m).len() implies (
                    #[trigger] map_entries(m)[i]).0 != key@ by {
                        assert(es[i] == (entries[i].0@, crate::value::model_of(entries[i].1)));
                        assert(es[i].0 != es[idx as int].0);
                    }
                }
                map_append(&mut m, key, child);
                idx += 1;
            }
            let r = json_object(m);
            assert(map_entries(m) =~= v@->Obj_0);
            r
        },
    }
}

} // verus!
