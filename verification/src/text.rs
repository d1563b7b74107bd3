//! The exact text of a JSON encoding, in both modes.
//!
//! These specification functions pin down, character for character, the text that the
//! external serializer produces for a [`JsonModel`] tree: `compact_text` for simple
//! mode (no whitespace beyond what JSON syntax requires, single line) and
//! `pretty_text` for pretty mode (two-space indentation per nesting level, one element
//! or field per line).  String contents are escaped per standard JSON rules by
//! `escape_text`.

use crate::value::JsonModel;
use vstd::prelude::*;

verus! {

broadcast use vstd::seq::group_seq_axioms;

/// `n` space characters: the indentation before an element nested `n/2` levels deep.
pub open spec fn spaces(n: nat) -> Seq<char>
    decreases n,
{
    if n == 0 {
        Seq::empty()
    } else {
        spaces((n - 1) as nat).push(' ')
    }
}

/// The decimal digit character for `d`, when `0 <= d <= 9`.
pub open spec fn dec_digit(d: int) -> char {
    if d == 0 {
        '0'
    } else if d == 1 {
        '1'
    } else if d == 2 {
        '2'
    } else if d == 3 {
        '3'
    } else if d == 4 {
        '4'
    } else if d == 5 {
        '5'
    } else if d == 6 {
        '6'
    } else if d == 7 {
        '7'
    } else if d == 8 {
        '8'
    } else {
        '9'
    }
}

/// The lower-case hexadecimal digit character for `d`, when `0 <= d <= 15`.
pub open spec fn hex_digit(d: int) -> char {
    if d < 10 {
        dec_digit(d)
    } else if d == 10 {
        'a'
    } else if d == 11 {
        'b'
    } else if d == 12 {
        'c'
    } else if d == 13 {
        'd'
    } else if d == 14 {
        'e'
    } else {
        'f'
    }
}

/// The decimal digits of `n`, most significant first, with no sign and no leading zero
/// (except for `n == 0` itself).
pub open spec fn nat_text(n: nat) -> Seq<char>
    decreases n,
{
    if n < 10 {
        seq![dec_digit(n as int)]
    } else {
        nat_text(n / 10).push(dec_digit((n % 10) as int))
    }
}

/// The decimal representation of `i`: a minus sign for negative values, then digits.
pub open spec fn int_text(i: int) -> Seq<char> {
    if i < 0 {
        seq!['-'] + nat_text((-i) as nat)
    } else {
        nat_text(i as nat)
    }
}

/// How one character appears inside a JSON string literal: `"` and `\` gain a
/// backslash, the named control characters use their short escapes, every other
/// control character below `U+0020` becomes `\u00xx`, and all remaining characters
/// stand for themselves.
pub open spec fn escape_char(c: char) -> Seq<char> {
    if c == '"' {
        seq!['\\', '"']
    } else if c == '\\' {
        seq!['\\', '\\']
    } else if c == '\u{8}' {
        seq!['\\', 'b']
    } else if c == '\t' {
        seq!['\\', 't']
    } else if c == '\n' {
        seq!['\\', 'n']
    } else if c == '\u{c}' {
        seq!['\\', 'f']
    } else if c == '\r' {
        seq!['\\', 'r']
    } else if (c as int) < 0x20 {
        seq!['\\', 'u', '0', '0', hex_digit(c as int / 16), hex_digit(c as int % 16)]
    } else {
        seq![c]
    }
}

/// The body of a JSON string literal: each character escaped in turn.
pub open spec fn escape_text(s: Seq<char>) -> Seq<char>
    decreases s,
{
    if s.len() == 0 {
        Seq::empty()
    } else {
        escape_char(s[0]) + escape_text(s.drop_first())
    }
}

/// A complete JSON string literal: the escaped body between double quotes.
pub open spec fn quoted(s: Seq<char>) -> Seq<char> {
    seq!['"'] + escape_text(s) + seq!['"']
}

/// The compact (simple-mode) encoding of a tree: minimal separators, no whitespace.
pub open spec fn compact_text(m: JsonModel) -> Seq<char>
    decreases m,
{
    match m {
        JsonModel::Null => seq!['n', 'u', 'l', 'l'],
        JsonModel::Bool(b) => if b {
            seq!['t', 'r', 'u', 'e']
        } else {
            seq!['f', 'a', 'l', 's', 'e']
        },
        JsonModel::Int(i) => int_text(i),
        JsonModel::Str(s) => quoted(s),
        JsonModel::Arr(items) => seq!['['] + compact_items(items) + seq![']'],
        JsonModel::Obj(entries) => seq!['{'] + compact_entries(entries) + seq!['}'],
    }
}

/// The elements of a compact array, separated by commas.
pub open spec fn compact_items(items: Seq<JsonModel>) -> Seq<char>
    decreases items,
{
    if items.len() == 0 {
        Seq::empty()
    } else if items.len() == 1 {
        compact_text(items[0])
    } else {
        compact_text(items[0]) + seq![','] + compact_items(items.drop_first())
    }
}

/// The fields of a compact object: `"key":value`, separated by commas.
pub open spec fn compact_entries(entries: Seq<(Seq<char>, JsonModel)>) -> Seq<char>
    decreases entries,
{
    if entries.len() == 0 {
        Seq::empty()
    } else if entries.len() == 1 {
        quoted(entries[0].0) + seq![':'] + compact_text(entries[0].1)
    } else {
        quoted(entries[0].0) + seq![':'] + compact_text(entries[0].1) + seq![',']
            + compact_entries(entries.drop_first())
    }
}

/// The pretty (indented, multi-line) encoding of a tree standing at indentation
/// column `ind`.  Leaves print as in compact mode; a non-empty array or object opens
/// its bracket, puts each child on a line of its own indented two spaces further, and
/// closes the bracket on a line indented back at `ind`.
pub open spec fn pretty_text(m: JsonModel, ind: nat) -> Seq<char>
    decreases m, 0int,
{
    match m {
        JsonModel::Arr(items) => if items.len() == 0 {
            seq!['[', ']']
        } else {
            seq!['['] + pretty_items(items, (ind + 2) as nat, true) + seq!['\n'] + spaces(ind)
                + seq![']']
        },
        JsonModel::Obj(entries) => if entries.len() == 0 {
            seq!['{', '}']
        } else {
            seq!['{'] + pretty_entries(entries, (ind + 2) as nat, true) + seq!['\n'] + spaces(ind)
                + seq!['}']
        },
        _ => compact_text(m),
    }
}

/// One element of a pretty array: a fresh line, its indentation, and the element's
/// own text.
pub open spec fn pretty_item(m: JsonModel, ind: nat) -> Seq<char>
    decreases m, 1int,
{
    seq!['\n'] + spaces(ind) + pretty_text(m, ind)
}

/// The elements of a non-empty pretty array, each on its own indented line,
/// separated by commas.
pub open spec fn pretty_items(items: Seq<JsonModel>, ind: nat, first: bool) -> Seq<char>
    decreases items, 2int,
{
    if items.len() == 0 {
        Seq::empty()
    } else if first {
        pretty_item(items[0], ind) + pretty_items(items.drop_first(), ind, false)
    } else {
        seq![','] + pretty_item(items[0], ind) + pretty_items(items.drop_first(), ind, false)
    }
}

/// One field of a pretty object: a fresh line, its indentation, the quoted key, a
/// colon and a space, and the field value's own text.
pub open spec fn pretty_entry(e: (Seq<char>, JsonModel), ind: nat) -> Seq<char>
    decreases e.1, 1int,
{
    seq!['\n'] + spaces(ind) + quoted(e.0) + seq![':', ' '] + pretty_text(e.1, ind)
}

/// The fields of a non-empty pretty object, each on its own line, separated by
/// commas.
pub open spec fn pretty_entries(entries: Seq<(Seq<char>, JsonModel)>, ind: nat, first: bool) -> Seq<
    char,
>
    decreases entries, 2int,
{
    if entries.len() == 0 {
        Seq::empty()
    } else if first {
        pretty_entry(entries[0], ind) + pretty_entries(entries.drop_first(), ind, false)
    } else {
        seq![','] + pretty_entry(entries[0], ind) + pretty_entries(entries.drop_first(), ind, false)
    }
}

} // verus!
