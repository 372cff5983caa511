//! The recursive unescape utility over JSON-like values: objects and
//! arrays recurse structurally, preserving keys and order; string leaves
//! are rewritten by sequential literal replacement, the doubly-escaped
//! forms first so the singly-escaped pass cannot double-unescape what the
//! first pass produced.

use vstd::prelude::*;
use vstd::string::*;

use crate::chars::{match_at, push_char};

verus! {

/// A JSON document as plain data. A number is either a 64-bit integer —
/// the only numeric form this layer reads — or any other numeric leaf
/// carried verbatim as its decimal text, so that whole documents can pass
/// through unchanged.
#[derive(Debug, PartialEq)]
pub enum JsonValue {
    Null,
    Bool(bool),
    Int(i64),
    Num(String),
    Str(String),
    Arr(Vec<JsonValue>),
    Obj(Vec<(String, JsonValue)>),
}

pub enum JsonView {
    Null,
    Bool(bool),
    Int(i64),
    Num(Seq<char>),
    Str(Seq<char>),
    Arr(Seq<JsonView>),
    Obj(Seq<(Seq<char>, JsonView)>),
}

/// The views of a sequence of values, element for element.
pub open spec fn jv_views(s: Seq<JsonValue>) -> Seq<JsonView>
    decreases s,
{
    if s.len() == 0 {
        Seq::empty()
    } else {
        jv_views(s.drop_last()).push(s.last().view_rec())
    }
}

/// The views of a sequence of key-value pairs, pair for pair.
pub open spec fn jv_pair_views(s: Seq<(String, JsonValue)>) -> Seq<(Seq<char>, JsonView)>
    decreases s,
{
    if s.len() == 0 {
        Seq::empty()
    } else {
        jv_pair_views(s.drop_last()).push((s.last().0@, s.last().1.view_rec()))
    }
}

impl JsonValue {
    pub open spec fn view_rec(self) -> JsonView
        decreases self,
    {
        match self {
            JsonValue::Null => JsonView::Null,
            JsonValue::Bool(b) => JsonView::Bool(b),
            JsonValue::Int(n) => JsonView::Int(n),
            JsonValue::Num(s) => JsonView::Num(s@),
            JsonValue::Str(s) => JsonView::Str(s@),
            JsonValue::Arr(a) => JsonView::Arr(jv_views(a@)),
            JsonValue::Obj(o) => JsonView::Obj(jv_pair_views(o@)),
        }
    }
}

impl View for JsonValue {
    type V = JsonView;

    open spec fn view(&self) -> JsonView {
        self.view_rec()
    }
}

/// One literal replacement over characters: leftmost match first,
/// non-overlapping, continuing after each replacement, as str::replace
/// does it. An empty pattern replaces nothing.
pub open spec fn spec_replace(s: Seq<char>, pat: Seq<char>, rep: Seq<char>) -> Seq<char>
    decreases s.len(),
{
    if pat.len() == 0 || s.len() < pat.len() {
        s
    } else if s.subrange(0, pat.len() as int) == pat {
        rep + spec_replace(s.skip(pat.len() as int), pat, rep)
    } else {
        seq![s[0]] + spec_replace(s.skip(1), pat, rep)
    }
}

/// Replace every occurrence of `pat` in `s` with `rep`.
pub fn replace_all(s: &str, pat: &str, rep: &str) -> (r: String)
    ensures
        r@ == spec_replace(s@, pat@, rep@),
{
    let n = s.unicode_len();
    let m = pat.unicode_len();
    if m == 0 {
        return s.to_owned();
    }
    let mut out = String::new();
    let mut i: usize = 0;
    proof {
        assert(s@.skip(0) =~= s@);
        assert(out@ + spec_replace(s@.skip(0), pat@, rep@) =~= spec_replace(s@, pat@, rep@));
    }
    while i < n
        invariant
            i <= n,
            n == s@.len(),
            m == pat@.len(),
            m >= 1,
            out@ + spec_replace(s@.skip(i as int), pat@, rep@) == spec_replace(s@, pat@, rep@),
        decreases n - i,
    {
        let ghost tail = s@.skip(i as int);
        let ghost out0 = out@;
        let matched = if m <= n - i {
            match_at(s, pat, i)
        } else {
            false
        };
        if matched {
            out.append(rep);
            i = i + m;
            proof {
                assert(tail.subrange(0, m as int) =~= s@.subrange(i - m, i - m + m));
                assert(tail.subrange(0, m as int) == pat@);
                assert(spec_replace(tail, pat@, rep@) == rep@ + spec_replace(
                    tail.skip(m as int),
                    pat@,
                    rep@,
                ));
                assert(tail.skip(m as int) =~= s@.skip(i as int));
                assert(out@ + spec_replace(s@.skip(i as int), pat@, rep@) =~= out0 + spec_replace(
                    tail,
                    pat@,
                    rep@,
                ));
            }
        } else {
            let c = s.get_char(i);
            push_char(&mut out, c);
            i = i + 1;
            proof {
                assert(tail[0] == s@[i - 1]);
                if i - 1 + m <= n {
                    assert(tail.subrange(0, m as int) =~= s@.subrange(i - 1, i - 1 + m));
                    assert(tail.subrange(0, m as int) != pat@);
                    assert(spec_replace(tail, pat@, rep@) == seq![tail[0]] + spec_replace(
                        tail.skip(1),
                        pat@,
                        rep@,
                    ));
                } else {
                    assert(tail.len() < m);
                    assert(spec_replace(tail, pat@, rep@) == tail);
                    assert(s@.skip(i as int).len() < m);
                    assert(tail =~= seq![tail[0]] + s@.skip(i as int));
                }
                assert(tail.skip(1) =~= s@.skip(i as int));
                assert(out@ + spec_replace(s@.skip(i as int), pat@, rep@) =~= (out0 + seq![
                    s@[i - 1],
                ]) + spec_replace(s@.skip(i as int), pat@, rep@));
                assert((out0 + seq![s@[i - 1]]) + spec_replace(s@.skip(i as int), pat@, rep@)
                    =~= out0 + spec_replace(tail, pat@, rep@));
            }
        }
    }
    proof {
        assert(s@.skip(n as int).len() == 0);
        assert(spec_replace(s@.skip(n as int), pat@, rep@) == s@.skip(n as int));
        assert(out@ =~= out@ + s@.skip(n as int));
    }
    out
}

/// The full escape rewriting of one string leaf: the four doubly-escaped
/// forms first, then the four singly-escaped forms, in this fixed order.
pub open spec fn spec_unescape_text(s: Seq<char>) -> Seq<char> {
    let s1 = spec_replace(s, "\\\\n"@, "\n"@);
    let s2 = spec_replace(s1, "\\\\t"@, "\t"@);
    let s3 = spec_replace(s2, "\\\\r"@, "\r"@);
    let s4 = spec_replace(s3, "\\\\\""@, "\""@);
    let s5 = spec_replace(s4, "\\n"@, "\n"@);
    let s6 = spec_replace(s5, "\\t"@, "\t"@);
    let s7 = spec_replace(s6, "\\r"@, "\r"@);
    spec_replace(s7, "\\\""@, "\""@)
}

/// Rewrite the escape forms of one string.
pub fn unescape_text(s: &str) -> (r: String)
    ensures
        r@ == spec_unescape_text(s@),
{
    let s1 = replace_all(s, "\\\\n", "\n");
    let s2 = replace_all(s1.as_str(), "\\\\t", "\t");
    let s3 = replace_all(s2.as_str(), "\\\\r", "\r");
    let s4 = replace_all(s3.as_str(), "\\\\\"", "\"");
    let s5 = replace_all(s4.as_str(), "\\n", "\n");
    let s6 = replace_all(s5.as_str(), "\\t", "\t");
    let s7 = replace_all(s6.as_str(), "\\r", "\r");
    replace_all(s7.as_str(), "\\\"", "\"")
}

/// What unescaping does to a whole document: structure, keys and order
/// kept; every string leaf rewritten.
pub open spec fn spec_unescape_value(v: JsonView) -> JsonView
    decreases v,
{
    match v {
        JsonView::Null => JsonView::Null,
        JsonView::Bool(b) => JsonView::Bool(b),
        JsonView::Int(n) => JsonView::Int(n),
        JsonView::Num(s) => JsonView::Num(s),
        JsonView::Str(s) => JsonView::Str(spec_unescape_text(s)),
        JsonView::Arr(a) => JsonView::Arr(spec_unescape_seq(a)),
        JsonView::Obj(o) => JsonView::Obj(spec_unescape_pairs(o)),
    }
}

/// Unescaping mapped over the elements of an array.
pub open spec fn spec_unescape_seq(s: Seq<JsonView>) -> Seq<JsonView>
    decreases s,
{
    if s.len() == 0 {
        Seq::empty()
    } else {
        spec_unescape_seq(s.drop_last()).push(spec_unescape_value(s.last()))
    }
}

/// Unescaping mapped over the values of an object, keys untouched.
pub open spec fn spec_unescape_pairs(s: Seq<(Seq<char>, JsonView)>) -> Seq<(Seq<char>, JsonView)>
    decreases s,
{
    if s.len() == 0 {
        Seq::empty()
    } else {
        spec_unescape_pairs(s.drop_last()).push(
            (s.last().0, spec_unescape_value(s.last().1)),
        )
    }
}

/// Unescape every string leaf of a JSON-like value, recursing through
/// objects and arrays and leaving other leaves untouched.
pub fn unescape_json_values(value: &JsonValue) -> (r: JsonValue)
    ensures
        r@ == spec_unescape_value(value@),
    decreases *value,
{
    match value {
        JsonValue::Null => JsonValue::Null,
        JsonValue::Bool(b) => JsonValue::Bool(*b),
        JsonValue::Int(n) => JsonValue::Int(*n),
        JsonValue::Num(s) => JsonValue::Num(s.clone()),
        JsonValue::Str(s) => JsonValue::Str(unescape_text(s.as_str())),
        JsonValue::Arr(a) => {
            let mut out: Vec<JsonValue> = Vec::new();
            let mut i: usize = 0;
            while i < a.len()
                invariant
                    i <= a@.len(),
                    value is Arr && value->Arr_0 == a,
                    jv_views(out@) == spec_unescape_seq(jv_views(a@.take(i as int))),
                decreases a@.len() - i,
            {
                proof {
                    assert(decreases_to!(*value => a@[i as int]));
                }
                let ghost prev = out@;
                let e = unescape_json_values(&a[i]);
                out.push(e);
                i = i + 1;
                proof {
                    assert(out@.drop_last() =~= prev);
                    assert(jv_views(out@) == jv_views(prev).push(e.view_rec()));
                    let t1 = jv_views(a@.take(i as int));
                    assert(a@.take(i as int).drop_last() =~= a@.take(i - 1));
                    assert(a@.take(i as int).last() == a@[i - 1]);
                    assert(t1 == jv_views(a@.take(i - 1)).push(a@[i - 1].view_rec()));
                    assert(t1.drop_last() =~= jv_views(a@.take(i - 1)));
                    assert(spec_unescape_seq(t1) == spec_unescape_seq(jv_views(a@.take(i - 1)))
                        .push(spec_unescape_value(a@[i - 1].view_rec())));
                }
            }
            let r = JsonValue::Arr(out);
            proof {
                assert(a@.take(a@.len() as int) =~= a@);
            }
            r
        },
        JsonValue::Obj(o) => {
            let mut out: Vec<(String, JsonValue)> = Vec::new();
            let mut i: usize = 0;
            while i < o.len()
                invariant
                    i <= o@.len(),
                    value is Obj && value->Obj_0 == o,
                    jv_pair_views(out@) == spec_unescape_pairs(jv_pair_views(o@.take(i as int))),
                decreases o@.len() - i,
            {
                proof {
                    assert(decreases_to!(*value => o@[i as int].1));
                }
                let ghost prev = out@;
                let pair = &o[i];
                let key = pair.0.clone();
                let val = unescape_json_values(&pair.1);
                out.push((key, val));
                i = i + 1;
                proof {
                    assert(out@.drop_last() =~= prev);
                    assert(out@.last().0@ == o@[i - 1].0@ && out@.last().1 == val);
                    assert(jv_pair_views(out@) == jv_pair_views(prev).push(
                        (o@[i - 1].0@, val.view_rec()),
                    ));
                    let t1 = jv_pair_views(o@.take(i as int));
                    assert(o@.take(i as int).drop_last() =~= o@.take(i - 1));
                    assert(o@.take(i as int).last() == o@[i - 1]);
                    assert(t1 == jv_pair_views(o@.take(i - 1)).push(
                        (o@[i - 1].0@, o@[i - 1].1.view_rec()),
                    ));
                    assert(t1.drop_last() =~= jv_pair_views(o@.take(i - 1)));
                    assert(t1.last() == (o@[i - 1].0@, o@[i - 1].1.view_rec()));
                    assert(spec_unescape_pairs(t1) == spec_unescape_pairs(
                        jv_pair_views(o@.take(i - 1)),
                    ).push((o@[i - 1].0@, spec_unescape_value(o@[i - 1].1.view_rec()))));
                }
            }
            let r = JsonValue::Obj(out);
            proof {
                assert(o@.take(o@.len() as int) =~= o@);
            }
            r
        },
    }
}

} // verus!
