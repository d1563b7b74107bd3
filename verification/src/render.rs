//! The four formatter bindings and their runtime behavior.
//!
//! A binding pairs one of the two standard formatting conventions (debug-oriented,
//! display-oriented) with one JSON mode; the mapping is fixed and total: the two
//! pretty bindings use pretty mode, the two simple bindings use simple mode.  A bound
//! formatter serializes the value through the external serializer and returns the
//! resulting text verbatim; a serialization failure would be absorbed into the text
//! `Error serializing to JSON: ` followed by the serializer's own description, so
//! formatting never panics and never fails a second time.  With this serializer the
//! failure path is proved unreachable — serializing a value tree cannot fail — so
//! every binding's output is exactly the encoding fixed by its mode.

use crate::serial::{describe_error, serialize_compact, serialize_pretty, to_serde};
use crate::text::{compact_text, pretty_text};
use crate::value::{JsonModel, JsonValue};
use vstd::prelude::*;
use vstd::string::StringExecFns;

verus! {

/// The two output-formatting policies: indented multi-line text, or one compact line.
#[derive(Clone, Copy)]
pub enum JsonMode {
    Pretty,
    Simple,
}

/// One of the four bindings of a formatting convention to a JSON mode.
#[derive(Clone, Copy)]
pub enum Binding {
    /// The debug-oriented convention, pretty mode.
    DebugPretty,
    /// The display-oriented convention, pretty mode.
    DisplayPretty,
    /// The debug-oriented convention, simple mode.
    DebugSimple,
    /// The display-oriented convention, simple mode.
    DisplaySimple,
}

impl Binding {
    /// The fixed, total mapping from a binding to its JSON mode, independent of the
    /// value's shape: both pretty bindings map to pretty mode, both simple bindings
    /// to simple mode.
    pub open spec fn mode_spec(self) -> JsonMode {
        match self {
            Binding::DebugPretty => JsonMode::Pretty,
            Binding::DisplayPretty => JsonMode::Pretty,
            Binding::DebugSimple => JsonMode::Simple,
            Binding::DisplaySimple => JsonMode::Simple,
        }
    }

    /// The JSON mode this binding fixes.
    pub fn mode(self) -> (m: JsonMode)
        ensures
            m == self.mode_spec(),
    {
        match self {
            Binding::DebugPretty => JsonMode::Pretty,
            Binding::DisplayPretty => JsonMode::Pretty,
            Binding::DebugSimple => JsonMode::Simple,
            Binding::DisplaySimple => JsonMode::Simple,
        }
    }
}

/// The exact text of a tree's encoding in the given mode.
pub open spec fn json_text(m: JsonModel, mode: JsonMode) -> Seq<char> {
    match mode {
        JsonMode::Pretty => pretty_text(m, 0),
        JsonMode::Simple => compact_text(m),
    }
}

/// The fixed literal that opens every serialization-failure report.
pub open spec fn error_prefix() -> Seq<char> {
    "Error serializing to JSON: "@
}

/// The full failure report: the fixed prefix followed by the serializer's description.
pub open spec fn error_report(msg: Seq<char>) -> Seq<char> {
    error_prefix() + msg
}

/// Serializes a tree in the given mode through the external serializer.  The call
/// succeeds, and the text is exactly the mode's encoding.  The error branch keeps
/// the degradation policy — a failure would be handed on as the serializer's own
/// description — but with this serializer it is provably never taken.
pub fn serialize(v: &JsonValue, mode: JsonMode) -> (r: Result<String, String>)
    requires
        v@.wf(),
    ensures
        r is Ok,
        r matches Ok(s) ==> s@ == json_text(v@, mode),
{
    let jv = to_serde(v);
    let res = match mode {
        JsonMode::Pretty => serialize_pretty(&jv),
        JsonMode::Simple => serialize_compact(&jv),
    };
    match res {
        Ok(s) => Ok(s),
        Err(e) => Err(describe_error(&e)),
    }
}

/// Turns a serialization outcome into the text a bound formatter writes: success
/// text verbatim, with no trailing modification; a failure as the fixed-format
/// report.  This step is total and cannot fail.
pub fn format_outcome(outcome: Result<String, String>) -> (out: String)
    ensures
        outcome matches Ok(s) ==> out@ == s@,
        outcome matches Err(msg) ==> out@ == error_report(msg@),
{
    match outcome {
        Ok(s) => s,
        Err(msg) => {
            let mut out = String::from_str("Error serializing to JSON: ");
            out.append(msg.as_str());
            out
        },
    }
}

/// The runtime behavior a binding installs, for the mode it fixes: exactly the
/// encoding of the value in that mode.  The output is a function of the value's
/// model and the mode alone, so repeated calls agree, and the two conventions
/// bound to one mode produce the same text.
pub fn render(v: &JsonValue, mode: JsonMode) -> (out: String)
    requires
        v@.wf(),
    ensures
        out@ == json_text(v@, mode),
{
    format_outcome(serialize(v, mode))
}

/// The formatter a binding installs on a value of the annotated type.
pub fn render_binding(v: &JsonValue, b: Binding) -> (out: String)
    requires
        v@.wf(),
    ensures
        out@ == json_text(v@, b.mode_spec()),
{
    render(v, b.mode())
}

/// The debug-oriented convention bound to pretty mode.
pub fn debug_pretty(v: &JsonValue) -> (out: String)
    requires
        v@.wf(),
    ensures
        out@ == pretty_text(v@, 0),
{
    render_binding(v, Binding::DebugPretty)
}

/// The display-oriented convention bound to pretty mode.
pub fn display_pretty(v: &JsonValue) -> (out: String)
    requires
        v@.wf(),
    ensures
        out@ == pretty_text(v@, 0),
{
    render_binding(v, Binding::DisplayPretty)
}

/// The display-oriented convention bound to simple mode.
pub fn display_simple(v: &JsonValue) -> (out: String)
    requires
        v@.wf(),
    ensures
        out@ == compact_text(v@),
{
    render_binding(v, Binding::DisplaySimple)
}

/// The debug-oriented convention bound to simple mode.
pub fn debug_simple(v: &JsonValue) -> (out: String)
    requires
        v@.wf(),
    ensures
        out@ == compact_text(v@),
{
    render_binding(v, Binding::DebugSimple)
}

} // verus!
