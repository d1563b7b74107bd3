//! The tree of plain values that stands for a structurally serializable value.
//!
//! A host value that can be structurally serialized is given to the library as a
//! [`JsonValue`]: booleans, integers and strings are leaves, arrays and objects carry
//! their children in declaration order.  An optional field with no value is
//! [`JsonValue::Null`]; a present optional field is the bare encoded value itself.  A
//! tagged-union value with no associated data is the string holding its tag name; one
//! with named fields is a single-entry object wrapping those fields.
//!
//! The mathematical model of a tree is a [`JsonModel`], in which strings are character
//! sequences and integers are unbounded.

use vstd::prelude::*;

verus! {

broadcast use vstd::std_specs::vec::group_vec_axioms;

/// A structurally serializable value, as the library receives it.
pub enum JsonValue {
    /// The JSON null value; how an absent optional field is represented.
    Null,
    /// A boolean leaf.
    Bool(bool),
    /// An integer leaf.
    Int(i64),
    /// A string leaf.
    Str(String),
    /// An array of children, in order.
    Arr(Vec<JsonValue>),
    /// An object: named fields in declaration order.
    Obj(Vec<(String, JsonValue)>),
}

/// The mathematical model of a [`JsonValue`] tree.
pub enum JsonModel {
    Null,
    Bool(bool),
    Int(int),
    Str(Seq<char>),
    Arr(Seq<JsonModel>),
    Obj(Seq<(Seq<char>, JsonModel)>),
}

/// The model of a [`JsonValue`]: the same tree over sequences and unbounded integers.
pub open spec fn model_of(v: JsonValue) -> JsonModel
    decreases v,
{
    match v {
        JsonValue::Null => JsonModel::Null,
        JsonValue::Bool(b) => JsonModel::Bool(b),
        JsonValue::Int(i) => JsonModel::Int(i as int),
        JsonValue::Str(s) => JsonModel::Str(s@),
        JsonValue::Arr(items) => JsonModel::Arr(
            Seq::new(
                items.len() as nat,
                |i: int|
                    if 0 <= i < items.len() {
                        model_of(items[i])
                    } else {
                        JsonModel::Null
                    },
            ),
        ),
        JsonValue::Obj(entries) => JsonModel::Obj(
            Seq::new(
                entries.len() as nat,
                |i: int|
                    if 0 <= i < entries.len() {
                        (entries[i].0@, model_of(entries[i].1))
                    } else {
                        (Seq::empty(), JsonModel::Null)
                    },
            ),
        ),
    }
}

impl View for JsonValue {
    type V = JsonModel;

    open spec fn view(&self) -> JsonModel {
        model_of(*self)
    }
}

impl JsonModel {
    /// Well-formedness: every object in the tree names each field once.
    ///
    /// This is the image of the external precondition that the host value supports
    /// structured serialization: a nominal type cannot declare the same field twice.
    pub open spec fn wf(self) -> bool
        decreases self,
    {
        match self {
            JsonModel::Arr(items) => forall|i: int|
                0 <= i < items.len() ==> (#[trigger] items[i]).wf(),
            JsonModel::Obj(entries) => {
                &&& forall|i: int, j: int|
                    0 <= i < j < entries.len() ==> (#[trigger] entries[i]).0 != (
                    #[trigger] entries[j]).0
                &&& forall|i: int| 0 <= i < entries.len() ==> (#[trigger] entries[i]).1.wf()
            },
            _ => true,
        }
    }
}

/// Decides [`JsonModel::wf`] for a tree: whether every object in it names each
/// field once.  An unverified caller can use this to establish the precondition of
/// the rendering functions before handing a tree over.
pub fn well_formed(v: &JsonValue) -> (b: bool)
    ensures
        b == v@.wf(),
    decreases *v,
{
    match v {
        JsonValue::Null => true,
        JsonValue::Bool(_) => true,
        JsonValue::Int(_) => true,
        JsonValue::Str(_) => true,
        JsonValue::Arr(items) => {
            let ghost ms = v@->Arr_0;
            let mut i: usize = 0;
            while i < items.len()
                invariant
                    *v == JsonValue::Arr(*items),
                    ms == v@->Arr_0,
                    i <= items.len(),
                    forall|k: int| 0 <= k < i as int ==> (#[trigger] ms[k]).wf(),
                decreases items.len() - i,
            {
                assert(ms[i as int] == model_of(items[i as int]));
                if !well_formed(&items[i]) {
                    return false;
                }
                i += 1;
            }
            true
        },
        JsonValue::Obj(entries) => {
            let ghost es = v@->Obj_0;
            let mut i: usize = 0;
            while i < entries.len()
                invariant
                    *v == JsonValue::Obj(*entries),
                    es == v@->Obj_0,
                    i <= entries.len(),
                    forall|a: int, b: int|
                        0 <= a < b < i as int ==> (#[trigger] es[a]).0 != (#[trigger] es[b]).0,
                    forall|k: int| 0 <= k < i as int ==> (#[trigger] es[k]).1.wf(),
                decreases entries.len() - i,
            {
                assert(es[i as int] == (entries[i as int].0@, model_of(entries[i as int].1)));
                let mut j: usize = 0;
                while j < i
                    invariant
                        *v == JsonValue::Obj(*entries),
                        es == v@->Obj_0,
                        j <= i < entries.len(),
                        es[i as int] == (entries[i as int].0@, model_of(entries[i as int].1)),
                        forall|k: int| 0 <= k < j as int ==> (#[trigger] es[k]).0 != es[i as int].0,
                    decreases i - j,
                {
                    assert(es[j as int] == (entries[j as int].0@, model_of(entries[j as int].1)));
                    if entries[j].0 == entries[i].0 {
                        proof {
                            assert(es[j as int].0 == es[i as int].0);
                            assert(!v@.wf());
                        }
                        return false;
                    }
                    j += 1;
                }
                if !well_formed(&entries[i].1) {
                    assert(!v@.wf());
                    return false;
                }
                i += 1;
            }
            true
        },
    }
}

} // verus!
