//! Emission of the generated code as text.
use vstd::prelude::*;
use crate::schema::{Schema, ScopeParam, TypeParam, FieldDef};
use crate::plan::{FlagArg, GenError, BuilderPlan, plan_builder, plan_error, planned_for, setter_planned, other_fields};
use crate::text::{
    views, flag_names, bounds_upto, scope_decls_upto, scope_args_upto, type_decls_upto, type_args_upto,
    flag_decls_upto, flag_args_upto, slots_upto, empty_slots_upto, taken_slots_upto, moved_slots_upto,
    docs_upto, builder_type, impl_head, struct_text,
    constructor_text, finalizer_text, setter_text, setters_upto, unit_text,
};

verus! {

fn emit_bounds(out: &mut String, b: &Vec<String>)
    ensures
        final(out)@ == old(out)@ + bounds_upto(b@, b@.len() as int),
{
    let ghost start = out@;
    let mut k: usize = 0;
    while k < b.len()
        invariant
            k <= b@.len(),
            out@ == start + bounds_upto(b@, k as int),
        decreases b@.len() - k,
    {
        if k == 0 {
            out.append(": ");
        } else {
            out.append(" + ");
        }
        out.append(b[k].as_str());
        k = k + 1;
        assert(out@ =~= start + bounds_upto(b@, k as int));
    }
}

fn emit_scope_decls(out: &mut String, ps: &Vec<ScopeParam>)
    ensures
        final(out)@ == old(out)@ + scope_decls_upto(ps@, ps@.len() as int),
{
    let ghost start = out@;
    let mut k: usize = 0;
    while k < ps.len()
        invariant
            k <= ps@.len(),
            out@ == start + scope_decls_upto(ps@, k as int),
        decreases ps@.len() - k,
    {
        out.append(ps[k].name.as_str());
        emit_bounds(out, &ps[k].bounds);
        out.append(", ");
        k = k + 1;
        assert(out@ =~= start + scope_decls_upto(ps@, k as int));
    }
}

fn emit_scope_args(out: &mut String, ps: &Vec<ScopeParam>)
    ensures
        final(out)@ == old(out)@ + scope_args_upto(ps@, ps@.len() as int),
{
    let ghost start = out@;
    let mut k: usize = 0;
    while k < ps.len()
        invariant
            k <= ps@.len(),
            out@ == start + scope_args_upto(ps@, k as int),
        decreases ps@.len() - k,
    {
        out.append(ps[k].name.as_str());
        out.append(", ");
        k = k + 1;
        assert(out@ =~= start + scope_args_upto(ps@, k as int));
    }
}

fn emit_type_decls(out: &mut String, ts: &Vec<TypeParam>)
    ensures
        final(out)@ == old(out)@ + type_decls_upto(ts@, ts@.len() as int),
{
    let ghost start = out@;
    let mut k: usize = 0;
    while k < ts.len()
        invariant
            k <= ts@.len(),
            out@ == start + type_decls_upto(ts@, k as int),
        decreases ts@.len() - k,
    {
        out.append(ts[k].name.as_str());
        emit_bounds(out, &ts[k].bounds);
        out.append(", ");
        k = k + 1;
        assert(out@ =~= start + type_decls_upto(ts@, k as int));
    }
}

fn emit_type_args(out: &mut String, ts: &Vec<TypeParam>)
    ensures
        final(out)@ == old(out)@ + type_args_upto(ts@, ts@.len() as int),
{
    let ghost start = out@;
    let mut k: usize = 0;
    while k < ts.len()
        invariant
            k <= ts@.len(),
            out@ == start + type_args_upto(ts@, k as int),
        decreases ts@.len() - k,
    {
        out.append(ts[k].name.as_str());
        out.append(", ");
        k = k + 1;
        assert(out@ =~= start + type_args_upto(ts@, k as int));
    }
}

fn emit_flag_decls(out: &mut String, flags: &Vec<String>, which: &Vec<usize>)
    requires
        forall|k: int| 0 <= k < which@.len() ==> #[trigger] which@[k] < flags@.len(),
    ensures
        final(out)@ == old(out)@ + flag_decls_upto(views(flags@), which@, which@.len() as int),
{
    let ghost start = out@;
    let mut k: usize = 0;
    while k < which.len()
        invariant
            forall|k: int| 0 <= k < which@.len() ==> #[trigger] which@[k] < flags@.len(),
            k <= which@.len(),
            out@ == start + flag_decls_upto(views(flags@), which@, k as int),
        decreases which@.len() - k,
    {
        out.append("const ");
        out.append(flags[which[k]].as_str());
        out.append(": bool, ");
        k = k + 1;
        assert(out@ =~= start + flag_decls_upto(views(flags@), which@, k as int));
    }
}

fn emit_flag_args(out: &mut String, flags: &Vec<String>, p: &Vec<FlagArg>)
    requires
        forall|k: int| 0 <= k < p@.len() ==> (#[trigger] p@[k] matches FlagArg::Param(j) ==> j < flags@.len()),
    ensures
        final(out)@ == old(out)@ + flag_args_upto(views(flags@), p@, p@.len() as int),
{
    let ghost start = out@;
    let mut k: usize = 0;
    while k < p.len()
        invariant
            forall|k: int| 0 <= k < p@.len() ==> (#[trigger] p@[k] matches FlagArg::Param(j) ==> j < flags@.len()),
            k <= p@.len(),
            out@ == start + flag_args_upto(views(flags@), p@, k as int),
        decreases p@.len() - k,
    {
        match p[k] {
            FlagArg::Fixed(true) => out.append("true"),
            FlagArg::Fixed(false) => out.append("false"),
            FlagArg::Param(j) => out.append(flags[j].as_str()),
        }
        out.append(", ");
        k = k + 1;
        assert(out@ =~= start + flag_args_upto(views(flags@), p@, k as int));
    }
}

fn emit_slots(out: &mut String, fs: &Vec<FieldDef>)
    ensures
        final(out)@ == old(out)@ + slots_upto(fs@, fs@.len() as int),
{
    let ghost start = out@;
    let mut k: usize = 0;
    while k < fs.len()
        invariant
            k <= fs@.len(),
            out@ == start + slots_upto(fs@, k as int),
        decreases fs@.len() - k,
    {
        out.append("    ");
        out.append(fs[k].name.as_str());
        out.append(": ::core::option::Option<");
        out.append(fs[k].ty.as_str());
        out.append(">,\n");
        k = k + 1;
        assert(out@ =~= start + slots_upto(fs@, k as int));
    }
}

fn emit_empty_slots(out: &mut String, fs: &Vec<FieldDef>)
    ensures
        final(out)@ == old(out)@ + empty_slots_upto(fs@, fs@.len() as int),
{
    let ghost start = out@;
    let mut k: usize = 0;
    while k < fs.len()
        invariant
            k <= fs@.len(),
            out@ == start + empty_slots_upto(fs@, k as int),
        decreases fs@.len() - k,
    {
        out.append(fs[k].name.as_str());
        out.append(": ::core::option::Option::None, ");
        k = k + 1;
        assert(out@ =~= start + empty_slots_upto(fs@, k as int));
    }
}

fn emit_taken_slots(out: &mut String, fs: &Vec<FieldDef>)
    ensures
        final(out)@ == old(out)@ + taken_slots_upto(fs@, fs@.len() as int),
{
    let ghost start = out@;
    let mut k: usize = 0;
    while k < fs.len()
        invariant
            k <= fs@.len(),
            out@ == start + taken_slots_upto(fs@, k as int),
        decreases fs@.len() - k,
    {
        out.append(fs[k].name.as_str());
        out.append(": self.");
        out.append(fs[k].name.as_str());
        out.append(".unwrap(), ");
        k = k + 1;
        assert(out@ =~= start + taken_slots_upto(fs@, k as int));
    }
}

fn emit_moved_slots(out: &mut String, fs: &Vec<FieldDef>, i: usize)
    ensures
        final(out)@ == old(out)@ + moved_slots_upto(fs@, i as int, fs@.len() as int),
{
    let ghost start = out@;
    let mut k: usize = 0;
    while k < fs.len()
        invariant
            k <= fs@.len(),
            out@ == start + moved_slots_upto(fs@, i as int, k as int),
        decreases fs@.len() - k,
    {
        out.append(fs[k].name.as_str());
        if k == i {
            out.append(": ::core::option::Option::Some(value), ");
        } else {
            out.append(": self.");
            out.append(fs[k].name.as_str());
            out.append(", ");
        }
        k = k + 1;
        assert(out@ =~= start + moved_slots_upto(fs@, i as int, k as int));
    }
}

fn emit_docs(out: &mut String, docs: &Vec<String>)
    ensures
        final(out)@ == old(out)@ + docs_upto(docs@, docs@.len() as int),
{
    let ghost start = out@;
    let mut k: usize = 0;
    while k < docs.len()
        invariant
            k <= docs@.len(),
            out@ == start + docs_upto(docs@, k as int),
        decreases docs@.len() - k,
    {
        out.append("    ");
        out.append(docs[k].as_str());
        out.append("\n");
        k = k + 1;
        assert(out@ =~= start + docs_upto(docs@, k as int));
    }
}

proof fn lemma_flag_views(p: &BuilderPlan, s: &Schema)
    requires
        planned_for(p, s),
    ensures
        views(p.flags@) == flag_names(s),
{
    assert(views(p.flags@) =~= flag_names(s));
}

/// Every abstract flag argument of `p` names one of the `n` fields.
pub open spec fn params_in_range(p: Seq<FlagArg>, n: nat) -> bool {
    forall|k: int| 0 <= k < p.len() ==> (#[trigger] p[k] matches FlagArg::Param(j) ==> j < n)
}

fn emit_builder_type(out: &mut String, s: &Schema, plan: &BuilderPlan, p: &Vec<FlagArg>)
    requires
        planned_for(plan, s),
        params_in_range(p@, s.width()),
    ensures
        final(out)@ == old(out)@ + builder_type(s, p@),
{
    proof {
        lemma_flag_views(plan, s);
    }
    let ghost start = out@;
    out.append(plan.builder_name.as_str());
    out.append("<");
    emit_scope_args(out, &s.scope_params);
    emit_flag_args(out, &plan.flags, p);
    emit_type_args(out, &s.type_params);
    out.append(">");
    assert(out@ =~= start + builder_type(s, p@));
}

fn emit_impl_head(out: &mut String, s: &Schema, plan: &BuilderPlan, which: &Vec<usize>, p: &Vec<FlagArg>)
    requires
        planned_for(plan, s),
        params_in_range(p@, s.width()),
        forall|k: int| 0 <= k < which@.len() ==> #[trigger] which@[k] < s.width(),
    ensures
        final(out)@ == old(out)@ + impl_head(s, which@, p@),
{
    proof {
        lemma_flag_views(plan, s);
    }
    let ghost start = out@;
    out.append("impl<");
    emit_scope_decls(out, &s.scope_params);
    emit_flag_decls(out, &plan.flags, which);
    emit_type_decls(out, &s.type_params);
    out.append("> ");
    emit_builder_type(out, s, plan, p);
    out.append(" ");
    out.append(s.where_clause.as_str());
    out.append(" {\n");
    assert(out@ =~= start + impl_head(s, which@, p@));
}

fn field_indices(n: usize) -> (r: Vec<usize>)
    ensures
        r@ == Seq::new(n as nat, |k: int| k as usize),
{
    let mut r: Vec<usize> = Vec::new();
    let mut k: usize = 0;
    while k < n
        invariant
            k <= n,
            r@ =~= Seq::new(k as nat, |m: int| m as usize),
        decreases n - k,
    {
        r.push(k);
        k = k + 1;
        assert(r@ =~= Seq::new(k as nat, |m: int| m as usize));
    }
    r
}

fn emit_struct(out: &mut String, s: &Schema, plan: &BuilderPlan)
    requires
        planned_for(plan, s),
    ensures
        final(out)@ == old(out)@ + struct_text(s),
{
    proof {
        lemma_flag_views(plan, s);
    }
    let ghost start = out@;
    let all = field_indices(s.fields.len());
    out.append(s.vis.as_str());
    out.append(" struct ");
    out.append(plan.builder_name.as_str());
    out.append("<");
    emit_scope_decls(out, &s.scope_params);
    emit_flag_decls(out, &plan.flags, &all);
    emit_type_decls(out, &s.type_params);
    out.append("> ");
    out.append(s.where_clause.as_str());
    out.append(" {\n");
    emit_slots(out, &s.fields);
    out.append("}\n");
    assert(out@ =~= start + struct_text(s));
}

fn emit_constructor(out: &mut String, s: &Schema, plan: &BuilderPlan)
    requires
        planned_for(plan, s),
    ensures
        final(out)@ == old(out)@ + constructor_text(s),
{
    let ghost start = out@;
    let none: Vec<usize> = Vec::new();
    assert(none@ =~= Seq::<usize>::empty());
    emit_impl_head(out, s, plan, &none, &plan.constructor);
    out.append("    pub fn new() -> Self {\n        ");
    out.append(plan.builder_name.as_str());
    out.append(" { ");
    emit_empty_slots(out, &s.fields);
    out.append("}\n    }\n}\n");
    assert(out@ =~= start + constructor_text(s));
}

fn emit_finalizer(out: &mut String, s: &Schema, plan: &BuilderPlan)
    requires
        planned_for(plan, s),
    ensures
        final(out)@ == old(out)@ + finalizer_text(s),
{
    let ghost start = out@;
    let none: Vec<usize> = Vec::new();
    assert(none@ =~= Seq::<usize>::empty());
    emit_impl_head(out, s, plan, &none, &plan.finalizer);
    out.append("    pub fn build(self) -> ");
    out.append(s.name.as_str());
    out.append("<");
    emit_scope_args(out, &s.scope_params);
    emit_type_args(out, &s.type_params);
    out.append("> {\n        ");
    out.append(s.name.as_str());
    out.append(" { ");
    emit_taken_slots(out, &s.fields);
    out.append("}\n    }\n}\n");
    assert(out@ =~= start + finalizer_text(s));
}

fn emit_setter(out: &mut String, s: &Schema, plan: &BuilderPlan, i: usize)
    requires
        planned_for(plan, s),
        i < s.width(),
    ensures
        final(out)@ == old(out)@ + setter_text(s, i as int),
{
    let ghost start = out@;
    let ghost n = s.width();
    let st = &plan.setters[i];
    assert(setter_planned(plan.setters@[i as int], n, i as int));
    assert forall|k: int| 0 <= k < st.generic_flags@.len() implies #[trigger] st.generic_flags@[k] < n by {
        assert(st.generic_flags@ == other_fields(n, i as int));
    }
    let f = &s.fields[i];
    emit_impl_head(out, s, plan, &st.generic_flags, &st.receiver);
    emit_docs(out, &f.docs);
    out.append("    pub fn ");
    out.append(f.name.as_str());
    out.append("(self, value: ");
    out.append(f.ty.as_str());
    out.append(") -> ");
    emit_builder_type(out, s, plan, &st.result);
    out.append(" {\n        ");
    out.append(plan.builder_name.as_str());
    out.append(" { ");
    emit_moved_slots(out, &s.fields, i);
    out.append("}\n    }\n}\n");
    assert(out@ =~= start + setter_text(s, i as int));
}

/// Emits the code that `plan` describes for `s`.
pub fn emit_unit(s: &Schema, plan: &BuilderPlan) -> (r: String)
    requires
        planned_for(plan, s),
    ensures
        r@ == unit_text(s),
{
    let mut out = String::new();
    emit_struct(&mut out, s, plan);
    emit_constructor(&mut out, s, plan);
    emit_finalizer(&mut out, s, plan);
    let ghost head = out@;
    let n = s.fields.len();
    let mut i: usize = 0;
    while i < n
        invariant
            planned_for(plan, s),
            n == s.width(),
            i <= n,
            out@ == head + setters_upto(s, i as int),
        decreases n - i,
    {
        emit_setter(&mut out, s, plan, i);
        i = i + 1;
        assert(out@ =~= head + setters_upto(s, i as int));
    }
    assert(out@ =~= unit_text(s));
    out
}

/// Generates the typestate builder for the record `s` describes, as Rust
/// source text: the builder type, `new`, `build`, and one setter per field.
///
/// Fails exactly when planning fails, with the same error.
pub fn derive_builder(s: &Schema) -> (r: Result<String, GenError>)
    ensures
        r is Ok <==> plan_error(s) is None,
        r is Ok ==> r->Ok_0@ == unit_text(s),
        r is Err ==> plan_error(s) == Some(r->Err_0),
{
    match plan_builder(s) {
        Ok(plan) => Ok(emit_unit(s, &plan)),
        Err(e) => Err(e),
    }
}

} // verus!
