//! The general laws of the two encodings, stated and proved once for all trees.
//!
//! Each public proof function here states one property of the text that the bound
//! formatters produce, over the specification functions of [`crate::text`].

use crate::text::{
    compact_entries, compact_items, compact_text, dec_digit, escape_char, escape_text, int_text,
    nat_text,
    pretty_entries, pretty_entry, pretty_text, quoted, spaces,
};
use crate::value::JsonModel;
use vstd::prelude::*;

verus! {

broadcast use vstd::seq::group_seq_axioms;

/// `p` stands at the front of `h`.
pub open spec fn starts_with(h: Seq<char>, p: Seq<char>) -> bool {
    p.len() <= h.len() && h.subrange(0, p.len() as int) == p
}

/// `p` stands in `h` at offset `i`.
pub open spec fn contains_at(h: Seq<char>, i: int, p: Seq<char>) -> bool {
    0 <= i && i + p.len() <= h.len() && h.subrange(i, i + p.len()) == p
}

/// `p` stands somewhere in `h`.
pub open spec fn contains_text(h: Seq<char>, p: Seq<char>) -> bool {
    exists|i: int| contains_at(h, i, p)
}

/// Every text stands in itself.
pub proof fn lemma_contains_self(p: Seq<char>)
    ensures
        contains_text(p, p),
{
    assert(p.subrange(0, p.len() as int) =~= p);
    assert(contains_at(p, 0, p));
}

/// What stands in the left part stands in the whole.
pub proof fn lemma_contains_left(a: Seq<char>, b: Seq<char>, p: Seq<char>)
    requires
        contains_text(a, p),
    ensures
        contains_text(a + b, p),
{
    let i = choose|i: int| contains_at(a, i, p);
    assert((a + b).subrange(i, i + p.len()) =~= a.subrange(i, i + p.len()));
    assert(contains_at(a + b, i, p));
}

/// What stands in the right part stands in the whole.
pub proof fn lemma_contains_right(a: Seq<char>, b: Seq<char>, p: Seq<char>)
    requires
        contains_text(b, p),
    ensures
        contains_text(a + b, p),
{
    let i = choose|i: int| contains_at(b, i, p);
    assert((a + b).subrange(a.len() + i, a.len() + i + p.len()) =~= b.subrange(i, i + p.len()));
    assert(contains_at(a + b, a.len() + i, p));
}

/// A character that JSON escaping leaves alone: not a quote, not a backslash, and
/// not a control character.
pub open spec fn plain_char(c: char) -> bool {
    c != '"' && c != '\\' && c as int >= 0x20
}

/// JSON escaping leaves a string of plain characters unchanged.
pub proof fn lemma_plain_text_unescaped(s: Seq<char>)
    requires
        forall|i: int| 0 <= i < s.len() ==> plain_char(#[trigger] s[i]),
    ensures
        escape_text(s) == s,
    decreases s.len(),
{
    if s.len() == 0 {
        assert(escape_text(s) =~= s);
    } else {
        lemma_plain_text_unescaped(s.drop_first());
        assert(escape_char(s[0]) == seq![s[0]]);
        assert(escape_text(s) =~= s);
    }
}

/// A tagged-union value with no associated data is modelled as the string holding
/// its tag name, and both modes format it to exactly that quoted JSON string, with
/// no surrounding object.
pub proof fn lemma_bare_tag_is_quoted_string(tag: Seq<char>, ind: nat)
    ensures
        compact_text(JsonModel::Str(tag)) == quoted(tag),
        pretty_text(JsonModel::Str(tag), ind) == quoted(tag),
{
}

/// A tag name of plain characters formats, in both modes, to exactly the tag
/// between two double quotes — a double quote, the tag's characters unchanged,
/// a double quote — with nothing around it.
pub proof fn lemma_plain_tag_exact_text(tag: Seq<char>, ind: nat)
    requires
        forall|i: int| 0 <= i < tag.len() ==> plain_char(#[trigger] tag[i]),
    ensures
        compact_text(JsonModel::Str(tag)) == seq!['"'] + tag + seq!['"'],
        pretty_text(JsonModel::Str(tag), ind) == seq!['"'] + tag + seq!['"'],
{
    lemma_plain_text_unescaped(tag);
}

/// An absent optional field is modelled as null, and both modes format it to the
/// four characters `null`; a present optional field is the bare encoded value
/// itself, so its text is that of the value with no extra wrapping.
pub proof fn lemma_null_formats_as_null(ind: nat)
    ensures
        compact_text(JsonModel::Null) == seq!['n', 'u', 'l', 'l'],
        pretty_text(JsonModel::Null, ind) == seq!['n', 'u', 'l', 'l'],
{
}

/// A tagged-union value with named fields is modelled as a single-entry object
/// wrapping them, and both modes format it to exactly that one-key object.
pub proof fn lemma_single_entry_object(tag: Seq<char>, inner: JsonModel, ind: nat)
    ensures
        compact_text(JsonModel::Obj(seq![(tag, inner)])) == seq!['{'] + quoted(tag) + seq![':']
            + compact_text(inner) + seq!['}'],
        pretty_text(JsonModel::Obj(seq![(tag, inner)]), ind) == seq!['{', '\n'] + spaces(
            (ind + 2) as nat,
        ) + quoted(tag) + seq![':', ' '] + pretty_text(inner, (ind + 2) as nat) + seq!['\n']
            + spaces(ind) + seq!['}'],
{
    let es = seq![(tag, inner)];
    assert(compact_entries(es) == quoted(tag) + seq![':'] + compact_text(inner));
    assert(compact_text(JsonModel::Obj(es)) =~= seq!['{'] + quoted(tag) + seq![':'] + compact_text(
        inner,
    ) + seq!['}']);
    assert(es.drop_first().len() == 0);
    assert(pretty_entries(es.drop_first(), (ind + 2) as nat, false) == Seq::<char>::empty());
    assert(pretty_entries(es, (ind + 2) as nat, true) =~= pretty_entry(es[0], (ind + 2) as nat));
    assert(pretty_entry(es[0], (ind + 2) as nat) =~= seq!['\n'] + spaces((ind + 2) as nat)
        + quoted(tag) + seq![':', ' '] + pretty_text(inner, (ind + 2) as nat));
    assert(pretty_text(JsonModel::Obj(es), ind) =~= seq!['{', '\n'] + spaces((ind + 2) as nat)
        + quoted(tag) + seq![':', ' '] + pretty_text(inner, (ind + 2) as nat) + seq!['\n'] + spaces(
        ind,
    ) + seq!['}']);
}

/// For a leaf — null, a boolean, an integer or a string — pretty and simple mode
/// produce the very same text, so the two encodings of such a value denote the same
/// value to any reader of JSON.
pub proof fn lemma_leaf_modes_agree(m: JsonModel, ind: nat)
    requires
        !(m is Arr),
        !(m is Obj),
    ensures
        pretty_text(m, ind) == compact_text(m),
{
}

proof fn lemma_concat_cancel_left(a: Seq<char>, r1: Seq<char>, r2: Seq<char>)
    requires
        a + r1 == a + r2,
    ensures
        r1 == r2,
{
    assert(r1.len() == r2.len()) by {
        assert((a + r1).len() == a.len() + r1.len());
        assert((a + r2).len() == a.len() + r2.len());
    }
    assert forall|i: int| 0 <= i < r1.len() implies r1[i] == r2[i] by {
        assert((a + r1)[a.len() + i] == r1[i]);
        assert((a + r2)[a.len() + i] == r2[i]);
    }
    assert(r1 =~= r2);
}

proof fn lemma_escape_char_head(c1: char, c2: char, r1: Seq<char>, r2: Seq<char>)
    requires
        escape_char(c1) + r1 == escape_char(c2) + r2,
    ensures
        c1 == c2,
        r1 == r2,
{
    let e1 = escape_char(c1);
    let e2 = escape_char(c2);
    assert((e1 + r1)[0] == e1[0]);
    assert((e2 + r2)[0] == e2[0]);
    if e1.len() >= 2 && e2.len() >= 2 {
        assert((e1 + r1)[1] == e1[1]);
        assert((e2 + r2)[1] == e2[1]);
    }
    if e1.len() == 6 && e2.len() == 6 {
        assert((e1 + r1)[4] == e1[4]);
        assert((e2 + r2)[4] == e2[4]);
        assert((e1 + r1)[5] == e1[5]);
        assert((e2 + r2)[5] == e2[5]);
    }
    assert(c1 == c2);
    lemma_concat_cancel_left(e1, r1, r2);
}

proof fn lemma_escape_text_injective(s1: Seq<char>, s2: Seq<char>)
    requires
        escape_text(s1) == escape_text(s2),
    ensures
        s1 == s2,
    decreases s1.len(),
{
    if s1.len() == 0 && s2.len() == 0 {
        assert(s1 =~= s2);
    } else if s1.len() == 0 {
        assert(escape_text(s2).len() >= escape_char(s2[0]).len()) by {
            assert((escape_char(s2[0]) + escape_text(s2.drop_first())).len() == escape_char(
                s2[0],
            ).len() + escape_text(s2.drop_first()).len());
        }
        assert(false);
    } else if s2.len() == 0 {
        assert(escape_text(s1).len() >= escape_char(s1[0]).len()) by {
            assert((escape_char(s1[0]) + escape_text(s1.drop_first())).len() == escape_char(
                s1[0],
            ).len() + escape_text(s1.drop_first()).len());
        }
        assert(false);
    } else {
        lemma_escape_char_head(
            s1[0],
            s2[0],
            escape_text(s1.drop_first()),
            escape_text(s2.drop_first()),
        );
        lemma_escape_text_injective(s1.drop_first(), s2.drop_first());
        assert(s1.drop_first().len() == s1.len() - 1);
        assert(s2.drop_first().len() == s2.len() - 1);
        assert forall|i: int| 0 <= i < s1.len() implies s1[i] == s2[i] by {
            if i > 0 {
                assert(s1.drop_first()[i - 1] == s1[i]);
                assert(s2.drop_first()[i - 1] == s2[i]);
            }
        }
        assert(s1 =~= s2);
    }
}

proof fn lemma_quoted_injective(s1: Seq<char>, s2: Seq<char>)
    requires
        quoted(s1) == quoted(s2),
    ensures
        s1 == s2,
{
    let e1 = escape_text(s1);
    let e2 = escape_text(s2);
    assert(e1.len() == e2.len()) by {
        assert(quoted(s1).len() == e1.len() + 2) by {
            assert((seq!['"'] + e1).len() == 1 + e1.len());
            assert(((seq!['"'] + e1) + seq!['"']).len() == (seq!['"'] + e1).len() + 1);
        }
        assert(quoted(s2).len() == e2.len() + 2) by {
            assert((seq!['"'] + e2).len() == 1 + e2.len());
            assert(((seq!['"'] + e2) + seq!['"']).len() == (seq!['"'] + e2).len() + 1);
        }
    }
    assert forall|i: int| 0 <= i < e1.len() implies e1[i] == e2[i] by {
        assert(quoted(s1)[i + 1] == e1[i]);
        assert(quoted(s2)[i + 1] == e2[i]);
    }
    assert(e1 =~= e2);
    lemma_escape_text_injective(s1, s2);
}

proof fn lemma_nat_text_shape(n: nat)
    ensures
        nat_text(n).len() >= 1,
        '0' <= nat_text(n)[0] <= '9',
        n >= 10 ==> nat_text(n).len() >= 2,
    decreases n,
{
    if n >= 10 {
        lemma_nat_text_shape(n / 10);
    }
}

proof fn lemma_nat_text_injective(a: nat, b: nat)
    requires
        nat_text(a) == nat_text(b),
    ensures
        a == b,
    decreases a,
{
    lemma_nat_text_shape(a);
    lemma_nat_text_shape(b);
    if a < 10 && b < 10 {
        assert(nat_text(a)[0] == dec_digit(a as int));
        assert(nat_text(b)[0] == dec_digit(b as int));
    } else if a >= 10 && b >= 10 {
        let pa = nat_text(a / 10);
        let pb = nat_text(b / 10);
        assert(pa.len() == pb.len()) by {
            assert(pa.push(dec_digit((a % 10) as int)).len() == pa.len() + 1);
            assert(pb.push(dec_digit((b % 10) as int)).len() == pb.len() + 1);
        }
        assert(nat_text(a)[pa.len() as int] == dec_digit((a % 10) as int));
        assert(nat_text(b)[pb.len() as int] == dec_digit((b % 10) as int));
        assert(a % 10 == b % 10);
        assert forall|i: int| 0 <= i < pa.len() implies pa[i] == pb[i] by {
            assert(nat_text(a)[i] == pa[i]);
            assert(nat_text(b)[i] == pb[i]);
        }
        assert(pa =~= pb);
        lemma_nat_text_injective(a / 10, b / 10);
    }
}

proof fn lemma_int_text_injective(a: int, b: int)
    requires
        int_text(a) == int_text(b),
    ensures
        a == b,
{
    lemma_nat_text_shape(if a < 0 {
        (-a) as nat
    } else {
        a as nat
    });
    lemma_nat_text_shape(if b < 0 {
        (-b) as nat
    } else {
        b as nat
    });
    if a < 0 && b < 0 {
        assert(int_text(a)[0] == '-');
        lemma_concat_cancel_left(seq!['-'], nat_text((-a) as nat), nat_text((-b) as nat));
        lemma_nat_text_injective((-a) as nat, (-b) as nat);
    } else if a >= 0 && b >= 0 {
        lemma_nat_text_injective(a as nat, b as nat);
    } else if a < 0 {
        assert(int_text(a)[0] == '-');
        assert(int_text(b)[0] == nat_text(b as nat)[0]);
        assert(false);
    } else {
        assert(int_text(b)[0] == '-');
        assert(int_text(a)[0] == nat_text(a as nat)[0]);
        assert(false);
    }
}

proof fn lemma_leaf_head(m: JsonModel)
    requires
        !(m is Arr),
        !(m is Obj),
    ensures
        compact_text(m).len() >= 1,
        m is Null ==> compact_text(m)[0] == 'n',
        m is Bool ==> (compact_text(m)[0] == 't' || compact_text(m)[0] == 'f'),
        m is Str ==> compact_text(m)[0] == '"',
        m is Int ==> (compact_text(m)[0] == '-' || '0' <= compact_text(m)[0] <= '9'),
{
    match m {
        JsonModel::Int(i) => {
            if i < 0 {
                lemma_nat_text_shape((-i) as nat);
                assert((seq!['-'] + nat_text((-i) as nat))[0] == '-');
                assert((seq!['-'] + nat_text((-i) as nat)).len() == 1 + nat_text(
                    (-i) as nat,
                ).len());
            } else {
                lemma_nat_text_shape(i as nat);
            }
        },
        JsonModel::Str(s) => {
            let e = escape_text(s);
            assert((seq!['"'] + e)[0] == '"');
            assert(((seq!['"'] + e) + seq!['"'])[0] == (seq!['"'] + e)[0]) by {
                assert((seq!['"'] + e).len() == 1 + e.len());
            }
        },
        _ => {},
    }
}

/// Two leaves with the same simple-mode text are the same value: the encoding
/// conflates no null, boolean, integer or string with another.  Since a leaf's
/// pretty text equals its simple text, the same holds in pretty mode: a correct
/// JSON reader maps the text of a leaf back to that leaf alone, whichever mode
/// produced it.
pub proof fn lemma_leaf_encoding_injective(m1: JsonModel, m2: JsonModel)
    requires
        !(m1 is Arr),
        !(m1 is Obj),
        !(m2 is Arr),
        !(m2 is Obj),
        compact_text(m1) == compact_text(m2),
    ensures
        m1 == m2,
{
    lemma_leaf_head(m1);
    lemma_leaf_head(m2);
    if m1 is Int && m2 is Int {
        lemma_int_text_injective(m1->Int_0, m2->Int_0);
    } else if m1 is Str && m2 is Str {
        lemma_quoted_injective(m1->Str_0, m2->Str_0);
    } else if m1 is Bool && m2 is Bool {
        if m1->Bool_0 != m2->Bool_0 {
            assert(compact_text(m1).len() != compact_text(m2).len());
            assert(false);
        }
    } else if m1 is Null && m2 is Null {
    } else {
        assert(compact_text(m1)[0] == compact_text(m2)[0]);
        assert(false);
    }
}

/// A text that fits on one line: it holds no newline character.
pub open spec fn single_line(s: Seq<char>) -> bool {
    forall|i: int| 0 <= i < s.len() ==> #[trigger] s[i] != '\n'
}

proof fn lemma_single_line_concat(a: Seq<char>, b: Seq<char>)
    requires
        single_line(a),
        single_line(b),
    ensures
        single_line(a + b),
{
    assert forall|i: int| 0 <= i < (a + b).len() implies #[trigger] (a + b)[i] != '\n' by {
        if i < a.len() {
            assert((a + b)[i] == a[i]);
        } else {
            assert((a + b)[i] == b[i - a.len()]);
        }
    }
}

proof fn lemma_nat_text_single_line(n: nat)
    ensures
        single_line(nat_text(n)),
    decreases n,
{
    if n >= 10 {
        lemma_nat_text_single_line(n / 10);
    }
}

proof fn lemma_escape_char_single_line(c: char)
    ensures
        single_line(escape_char(c)),
{
}

proof fn lemma_escape_text_single_line(s: Seq<char>)
    ensures
        single_line(escape_text(s)),
    decreases s.len(),
{
    if s.len() > 0 {
        lemma_escape_char_single_line(s[0]);
        lemma_escape_text_single_line(s.drop_first());
        lemma_single_line_concat(escape_char(s[0]), escape_text(s.drop_first()));
    }
}

proof fn lemma_quoted_single_line(s: Seq<char>)
    ensures
        single_line(quoted(s)),
{
    lemma_escape_text_single_line(s);
    lemma_single_line_concat(seq!['"'], escape_text(s));
    lemma_single_line_concat(seq!['"'] + escape_text(s), seq!['"']);
}

/// Simple mode never emits a newline: the compact encoding of any tree is a single
/// line.
pub proof fn lemma_simple_mode_single_line(m: JsonModel)
    ensures
        single_line(compact_text(m)),
    decreases m,
{
    match m {
        JsonModel::Null => {},
        JsonModel::Bool(_) => {},
        JsonModel::Int(i) => {
            if i < 0 {
                lemma_nat_text_single_line((-i) as nat);
                lemma_single_line_concat(seq!['-'], nat_text((-i) as nat));
            } else {
                lemma_nat_text_single_line(i as nat);
            }
        },
        JsonModel::Str(s) => {
            lemma_quoted_single_line(s);
        },
        JsonModel::Arr(items) => {
            lemma_compact_items_single_line(items);
            lemma_single_line_concat(seq!['['], compact_items(items));
            lemma_single_line_concat(seq!['['] + compact_items(items), seq![']']);
        },
        JsonModel::Obj(entries) => {
            lemma_compact_entries_single_line(entries);
            lemma_single_line_concat(seq!['{'], compact_entries(entries));
            lemma_single_line_concat(seq!['{'] + compact_entries(entries), seq!['}']);
        },
    }
}

proof fn lemma_compact_items_single_line(items: Seq<JsonModel>)
    ensures
        single_line(compact_items(items)),
    decreases items,
{
    if items.len() == 1 {
        lemma_simple_mode_single_line(items[0]);
    } else if items.len() > 1 {
        lemma_simple_mode_single_line(items[0]);
        lemma_compact_items_single_line(items.drop_first());
        lemma_single_line_concat(compact_text(items[0]), seq![',']);
        lemma_single_line_concat(
            compact_text(items[0]) + seq![','],
            compact_items(items.drop_first()),
        );
    }
}

proof fn lemma_compact_entries_single_line(entries: Seq<(Seq<char>, JsonModel)>)
    ensures
        single_line(compact_entries(entries)),
    decreases entries,
{
    if entries.len() >= 1 {
        lemma_quoted_single_line(entries[0].0);
        lemma_simple_mode_single_line(entries[0].1);
        lemma_single_line_concat(quoted(entries[0].0), seq![':']);
        lemma_single_line_concat(quoted(entries[0].0) + seq![':'], compact_text(entries[0].1));
        if entries.len() > 1 {
            lemma_compact_entries_single_line(entries.drop_first());
            lemma_single_line_concat(
                quoted(entries[0].0) + seq![':'] + compact_text(entries[0].1),
                seq![','],
            );
            lemma_single_line_concat(
                quoted(entries[0].0) + seq![':'] + compact_text(entries[0].1) + seq![','],
                compact_entries(entries.drop_first()),
            );
        }
    }
}

proof fn lemma_escape_text_contains(s: Seq<char>, i: int)
    requires
        0 <= i < s.len(),
    ensures
        contains_text(escape_text(s), escape_char(s[i])),
    decreases s.len(),
{
    if i == 0 {
        lemma_contains_self(escape_char(s[0]));
        lemma_contains_left(escape_char(s[0]), escape_text(s.drop_first()), escape_char(s[0]));
    } else {
        lemma_escape_text_contains(s.drop_first(), i - 1);
        assert(s.drop_first()[i - 1] == s[i]);
        lemma_contains_right(escape_char(s[0]), escape_text(s.drop_first()), escape_char(s[i]));
    }
}

/// Each character of a string field appears in the encoded text under its JSON
/// escape, in both modes: in particular `"` as `\"`, a newline as `\n`, and a tab as
/// `\t`.
pub proof fn lemma_specials_escaped(s: Seq<char>, i: int, ind: nat)
    requires
        0 <= i < s.len(),
    ensures
        contains_text(compact_text(JsonModel::Str(s)), escape_char(s[i])),
        contains_text(pretty_text(JsonModel::Str(s), ind), escape_char(s[i])),
        escape_char('"') == seq!['\\', '"'],
        escape_char('\n') == seq!['\\', 'n'],
        escape_char('\t') == seq!['\\', 't'],
{
    lemma_escape_text_contains(s, i);
    lemma_contains_right(seq!['"'], escape_text(s), escape_char(s[i]));
    lemma_contains_left(seq!['"'] + escape_text(s), seq!['"'], escape_char(s[i]));
}

proof fn lemma_compact_entries_contains_field(entries: Seq<(Seq<char>, JsonModel)>, k: int)
    requires
        0 <= k < entries.len(),
    ensures
        contains_text(
            compact_entries(entries),
            quoted(entries[k].0) + seq![':'] + compact_text(entries[k].1),
        ),
    decreases entries.len(),
{
    let chunk = quoted(entries[0].0) + seq![':'] + compact_text(entries[0].1);
    let rest = compact_entries(entries.drop_first());
    if k == 0 {
        lemma_contains_self(chunk);
        if entries.len() > 1 {
            lemma_contains_left(chunk, seq![','], chunk);
            lemma_contains_left(chunk + seq![','], rest, chunk);
        }
    } else {
        lemma_compact_entries_contains_field(entries.drop_first(), k - 1);
        assert(entries.drop_first()[k - 1] == entries[k]);
        lemma_contains_right(
            chunk + seq![','],
            rest,
            quoted(entries[k].0) + seq![':'] + compact_text(entries[k].1),
        );
    }
}

/// Every field of a compact object appears in its text as the quoted field name, a
/// colon, and the bare compact encoding of its value; in particular an absent
/// optional field appears as its name followed by `:null`.
pub proof fn lemma_compact_object_fields(entries: Seq<(Seq<char>, JsonModel)>, k: int)
    requires
        0 <= k < entries.len(),
    ensures
        contains_text(
            compact_text(JsonModel::Obj(entries)),
            quoted(entries[k].0) + seq![':'] + compact_text(entries[k].1),
        ),
        entries[k].1 is Null ==> contains_text(
            compact_text(JsonModel::Obj(entries)),
            quoted(entries[k].0) + seq![':', 'n', 'u', 'l', 'l'],
        ),
{
    let needle = quoted(entries[k].0) + seq![':'] + compact_text(entries[k].1);
    lemma_compact_entries_contains_field(entries, k);
    lemma_contains_right(seq!['{'], compact_entries(entries), needle);
    lemma_contains_left(seq!['{'] + compact_entries(entries), seq!['}'], needle);
    if entries[k].1 is Null {
        assert(needle =~= quoted(entries[k].0) + seq![':', 'n', 'u', 'l', 'l']);
    }
}

proof fn lemma_pretty_entries_contains_entry(
    entries: Seq<(Seq<char>, JsonModel)>,
    ind: nat,
    first: bool,
    k: int,
)
    requires
        0 <= k < entries.len(),
    ensures
        contains_text(pretty_entries(entries, ind, first), pretty_entry(entries[k], ind)),
    decreases entries.len(),
{
    let rest = pretty_entries(entries.drop_first(), ind, false);
    let chunk = pretty_entry(entries[0], ind);
    if k == 0 {
        lemma_contains_self(chunk);
        if first {
            lemma_contains_left(chunk, rest, chunk);
        } else {
            lemma_contains_right(seq![','], chunk, chunk);
            lemma_contains_left(seq![','] + chunk, rest, chunk);
        }
    } else {
        lemma_pretty_entries_contains_entry(entries.drop_first(), ind, false, k - 1);
        assert(entries.drop_first()[k - 1] == entries[k]);
        if first {
            lemma_contains_right(chunk, rest, pretty_entry(entries[k], ind));
        } else {
            lemma_contains_right(seq![','] + chunk, rest, pretty_entry(entries[k], ind));
        }
    }
}

/// Pretty mode opens every non-empty object with `{` followed by a newline, and a
/// two-space indentation precedes each first-level key, which is followed by a
/// colon, a space, and the field's own text indented two columns in.
#[verifier::rlimit(80)]
pub proof fn lemma_pretty_object_layout(entries: Seq<(Seq<char>, JsonModel)>)
    requires
        entries.len() > 0,
    ensures
        starts_with(pretty_text(JsonModel::Obj(entries), 0), seq!['{', '\n']),
        forall|k: int|
            0 <= k < entries.len() ==> contains_text(
                pretty_text(JsonModel::Obj(entries), 0),
                seq!['\n', ' ', ' '] + quoted((#[trigger] entries[k]).0) + seq![':', ' ']
                    + pretty_text(entries[k].1, 2),
            ),
{
    let t = pretty_text(JsonModel::Obj(entries), 0);
    let body = pretty_entries(entries, 2, true);
    let closing = seq!['\n'] + spaces(0) + seq!['}'];
    let chunk = pretty_entry(entries[0], 2);
    assert(spaces(2) =~= seq![' ', ' ']) by {
        reveal_with_fuel(spaces, 3);
    }
    assert(body == chunk + pretty_entries(entries.drop_first(), 2, false));
    assert(t =~= (seq!['{'] + body) + closing);
    assert(t[1] == chunk[0]);
    assert(t.subrange(0, 2) =~= seq!['{', '\n']);
    assert forall|k: int| 0 <= k < entries.len() implies contains_text(
        t,
        seq!['\n', ' ', ' '] + quoted((#[trigger] entries[k]).0) + seq![':', ' '] + pretty_text(
            entries[k].1,
            2,
        ),
    ) by {
        let needle = pretty_entry(entries[k], 2);
        lemma_pretty_entries_contains_entry(entries, 2, true, k);
        assert(needle =~= seq!['\n', ' ', ' '] + quoted(entries[k].0) + seq![':', ' ']
            + pretty_text(entries[k].1, 2));
        lemma_contains_right(seq!['{'], body, needle);
        lemma_contains_left(seq!['{'] + body, closing, needle);
    }
}

} // verus!
