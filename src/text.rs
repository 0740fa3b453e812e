//! The text of the generated code, described piece by piece.
use vstd::prelude::*;
use crate::schema::{Schema, ScopeParam, TypeParam, FieldDef};
use crate::naming::{builder_text, flag_text};
use crate::plan::{FlagArg, constructor_pattern, finalizer_pattern, receiver_pattern, result_pattern, other_fields};

verus! {

/// The texts of a list of strings.
pub open spec fn views(v: Seq<String>) -> Seq<Seq<char>> {
    Seq::new(v.len(), |k: int| v[k]@)
}

/// The flag names of a schema's fields, in field order.
pub open spec fn flag_names(s: &Schema) -> Seq<Seq<char>> {
    Seq::new(s.width(), |k: int| flag_text(s.field_name(k)))
}

/// The first `k` bounds, written `: a + b`.
pub open spec fn bounds_upto(b: Seq<String>, k: int) -> Seq<char>
    decreases k,
{
    if k <= 0 {
        Seq::empty()
    } else {
        bounds_upto(b, k - 1) + (if k == 1 { ": "@ } else { " + "@ }) + b[k - 1]@
    }
}

pub open spec fn scope_decls_upto(ps: Seq<ScopeParam>, k: int) -> Seq<char>
    decreases k,
{
    if k <= 0 {
        Seq::empty()
    } else {
        scope_decls_upto(ps, k - 1) + ps[k - 1].name@ + bounds_upto(ps[k - 1].bounds@, ps[k - 1].bounds@.len() as int) + ", "@
    }
}

pub open spec fn scope_args_upto(ps: Seq<ScopeParam>, k: int) -> Seq<char>
    decreases k,
{
    if k <= 0 {
        Seq::empty()
    } else {
        scope_args_upto(ps, k - 1) + ps[k - 1].name@ + ", "@
    }
}

pub open spec fn type_decls_upto(ts: Seq<TypeParam>, k: int) -> Seq<char>
    decreases k,
{
    if k <= 0 {
        Seq::empty()
    } else {
        type_decls_upto(ts, k - 1) + ts[k - 1].name@ + bounds_upto(ts[k - 1].bounds@, ts[k - 1].bounds@.len() as int) + ", "@
    }
}

pub open spec fn type_args_upto(ts: Seq<TypeParam>, k: int) -> Seq<char>
    decreases k,
{
    if k <= 0 {
        Seq::empty()
    } else {
        type_args_upto(ts, k - 1) + ts[k - 1].name@ + ", "@
    }
}

/// `const F: bool, ` for the first `k` of the flags listed in `which`.
pub open spec fn flag_decls_upto(fl: Seq<Seq<char>>, which: Seq<usize>, k: int) -> Seq<char>
    decreases k,
{
    if k <= 0 {
        Seq::empty()
    } else {
        flag_decls_upto(fl, which, k - 1) + "const "@ + fl[which[k - 1] as int] + ": bool, "@
    }
}

pub open spec fn arg_text(fl: Seq<Seq<char>>, a: FlagArg) -> Seq<char> {
    match a {
        FlagArg::Fixed(true) => "true"@,
        FlagArg::Fixed(false) => "false"@,
        FlagArg::Param(j) => fl[j as int],
    }
}

pub open spec fn flag_args_upto(fl: Seq<Seq<char>>, p: Seq<FlagArg>, k: int) -> Seq<char>
    decreases k,
{
    if k <= 0 {
        Seq::empty()
    } else {
        flag_args_upto(fl, p, k - 1) + arg_text(fl, p[k - 1]) + ", "@
    }
}

/// The builder's slot declarations, one line each.
pub open spec fn slots_upto(fs: Seq<FieldDef>, k: int) -> Seq<char>
    decreases k,
{
    if k <= 0 {
        Seq::empty()
    } else {
        slots_upto(fs, k - 1) + "    "@ + fs[k - 1].name@ + ": ::core::option::Option<"@ + fs[k - 1].ty@ + ">,\n"@
    }
}

/// Every slot empty, as `new` fills them.
pub open spec fn empty_slots_upto(fs: Seq<FieldDef>, k: int) -> Seq<char>
    decreases k,
{
    if k <= 0 {
        Seq::empty()
    } else {
        empty_slots_upto(fs, k - 1) + fs[k - 1].name@ + ": ::core::option::Option::None, "@
    }
}

/// Every slot read out, as `build` fills the record.
pub open spec fn taken_slots_upto(fs: Seq<FieldDef>, k: int) -> Seq<char>
    decreases k,
{
    if k <= 0 {
        Seq::empty()
    } else {
        taken_slots_upto(fs, k - 1) + fs[k - 1].name@ + ": self."@ + fs[k - 1].name@ + ".unwrap(), "@
    }
}

/// Every slot moved over, but slot `i`, which takes the setter's value.
pub open spec fn moved_slots_upto(fs: Seq<FieldDef>, i: int, k: int) -> Seq<char>
    decreases k,
{
    if k <= 0 {
        Seq::empty()
    } else if k - 1 == i {
        moved_slots_upto(fs, i, k - 1) + fs[k - 1].name@ + ": ::core::option::Option::Some(value), "@
    } else {
        moved_slots_upto(fs, i, k - 1) + fs[k - 1].name@ + ": self."@ + fs[k - 1].name@ + ", "@
    }
}

/// Documentation attributes, verbatim, one line each.
pub open spec fn docs_upto(docs: Seq<String>, k: int) -> Seq<char>
    decreases k,
{
    if k <= 0 {
        Seq::empty()
    } else {
        docs_upto(docs, k - 1) + "    "@ + docs[k - 1]@ + "\n"@
    }
}

pub open spec fn scope_decls(s: &Schema) -> Seq<char> {
    scope_decls_upto(s.scope_params@, s.scope_params@.len() as int)
}

pub open spec fn scope_args(s: &Schema) -> Seq<char> {
    scope_args_upto(s.scope_params@, s.scope_params@.len() as int)
}

pub open spec fn type_decls(s: &Schema) -> Seq<char> {
    type_decls_upto(s.type_params@, s.type_params@.len() as int)
}

pub open spec fn type_args(s: &Schema) -> Seq<char> {
    type_args_upto(s.type_params@, s.type_params@.len() as int)
}

/// The builder type at the flag instantiation `p`.
pub open spec fn builder_type(s: &Schema, p: Seq<FlagArg>) -> Seq<char> {
    builder_text(s.name@) + "<"@ + scope_args(s) + flag_args_upto(flag_names(s), p, p.len() as int) + type_args(s) + ">"@
}

/// The opening of an impl block generic over the flags in `which`, for the
/// builder at instantiation `p`.
pub open spec fn impl_head(s: &Schema, which: Seq<usize>, p: Seq<FlagArg>) -> Seq<char> {
    "impl<"@ + scope_decls(s) + flag_decls_upto(flag_names(s), which, which.len() as int) + type_decls(s) + "> "@
        + builder_type(s, p) + " "@ + s.where_clause@ + " {\n"@
}

/// The builder's type definition.
pub open spec fn struct_text(s: &Schema) -> Seq<char> {
    let n = s.width();
    s.vis@ + " struct "@ + builder_text(s.name@) + "<"@ + scope_decls(s)
        + flag_decls_upto(flag_names(s), Seq::new(n, |k: int| k as usize), n as int) + type_decls(s) + "> "@
        + s.where_clause@ + " {\n"@ + slots_upto(s.fields@, n as int) + "}\n"@
}

/// The impl block holding `new`.
pub open spec fn constructor_text(s: &Schema) -> Seq<char> {
    let n = s.width();
    impl_head(s, Seq::empty(), constructor_pattern(n)) + "    pub fn new() -> Self {\n        "@
        + builder_text(s.name@) + " { "@ + empty_slots_upto(s.fields@, n as int) + "}\n    }\n}\n"@
}

/// The impl block holding `build`.
pub open spec fn finalizer_text(s: &Schema) -> Seq<char> {
    let n = s.width();
    impl_head(s, Seq::empty(), finalizer_pattern(n)) + "    pub fn build(self) -> "@ + s.name@ + "<"@
        + scope_args(s) + type_args(s) + "> {\n        "@ + s.name@ + " { "@
        + taken_slots_upto(s.fields@, n as int) + "}\n    }\n}\n"@
}

/// The impl block holding the setter of field `i`, documented as the field is.
pub open spec fn setter_text(s: &Schema, i: int) -> Seq<char> {
    let n = s.width();
    let f = s.fields@[i];
    impl_head(s, other_fields(n, i), receiver_pattern(n, i)) + docs_upto(f.docs@, f.docs@.len() as int)
        + "    pub fn "@ + f.name@ + "(self, value: "@ + f.ty@ + ") -> "@ + builder_type(s, result_pattern(n, i))
        + " {\n        "@ + builder_text(s.name@) + " { "@ + moved_slots_upto(s.fields@, i, n as int)
        + "}\n    }\n}\n"@
}

pub open spec fn setters_upto(s: &Schema, k: int) -> Seq<char>
    decreases k,
{
    if k <= 0 {
        Seq::empty()
    } else {
        setters_upto(s, k - 1) + setter_text(s, k - 1)
    }
}

/// The whole generated unit: the builder type, `new`, `build`, and one
/// setter per field in field order.
pub open spec fn unit_text(s: &Schema) -> Seq<char> {
    struct_text(s) + constructor_text(s) + finalizer_text(s) + setters_upto(s, s.width() as int)
}

proof fn lemma_docs_prefix(docs: Seq<String>, k: int, m: int)
    requires
        0 <= k <= m,
    ensures
        docs_upto(docs, k).is_prefix_of(docs_upto(docs, m)),
    decreases m - k,
{
    if k < m {
        lemma_docs_prefix(docs, k + 1, m);
        assert(docs_upto(docs, k).is_prefix_of(docs_upto(docs, k + 1)));
    }
}

/// Where the text of doc attribute `k` of field `i` starts in the setter's
/// text: after the impl block's opening, the earlier doc lines, and the
/// line's indentation.
pub open spec fn doc_start(s: &Schema, i: int, k: int) -> int {
    impl_head(s, other_fields(s.width(), i), receiver_pattern(s.width(), i)).len() as int
        + docs_upto(s.fields@[i].docs@, k).len() as int + 4
}

/// The setter of field `i` carries the field's documentation verbatim: right
/// after the impl block's opening, each of the field's doc attributes stands
/// on a line of its own, unchanged and in the order they were written.
pub proof fn lemma_setter_keeps_docs(s: &Schema, i: int)
    requires
        0 <= i < s.width(),
    ensures
        forall|k: int| 0 <= k < s.fields@[i].docs@.len() ==>
            setter_text(s, i).subrange(#[trigger] doc_start(s, i, k), doc_start(s, i, k) + s.fields@[i].docs@[k]@.len() as int)
                == s.fields@[i].docs@[k]@,
{
    let docs = s.fields@[i].docs@;
    let h = impl_head(s, other_fields(s.width(), i), receiver_pattern(s.width(), i));
    let all = docs_upto(docs, docs.len() as int);
    let t = setter_text(s, i);
    reveal_strlit("    ");
    assert forall|k: int| 0 <= k < docs.len() implies
        t.subrange(#[trigger] doc_start(s, i, k), doc_start(s, i, k) + docs[k]@.len() as int) == docs[k]@ by {
        lemma_docs_prefix(docs, k + 1, docs.len() as int);
        let pre = docs_upto(docs, k);
        let line = docs_upto(docs, k + 1);
        assert(line == pre + "    "@ + docs[k]@ + "\n"@);
        let at: int = h.len() as int + pre.len() as int + 4;
        let end: int = at + docs[k]@.len() as int;
        assert(t.subrange(0, h.len() + line.len() as int) =~= h + line) by {
            assert(t =~= h + all + t.subrange(h.len() + all.len() as int, t.len() as int));
            assert(line =~= all.subrange(0, line.len() as int));
        }
        assert((h + line).subrange(at, end) =~= docs[k]@);
        assert(t.subrange(at, end) =~= (h + line).subrange(at, end));
    }
}

} // verus!
