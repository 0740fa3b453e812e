use vstd::prelude::*;
use crate::schema::{Schema, FieldDef, TypeParam};
use crate::naming::{ident_text_ok, builder_text, flag_text, is_legal_ident, builder_name, flag_name};

verus! {

/// One flag argument of a builder instantiation.
#[derive(Clone, Copy, Debug, PartialEq, Eq, Structural)]
pub enum FlagArg {
    /// The flag is fixed to this value.
    Fixed(bool),
    /// The flag is left as the abstract const parameter of field `k`.
    Param(usize),
}

/// Why no builder can be generated for a schema.
#[derive(Clone, Copy, Debug, PartialEq, Eq, Structural)]
pub enum GenError {
    /// The record's name followed by `Builder` is not a legal identifier.
    IllegalBuilderName,
    /// Field `i` has the same name as an earlier field.
    DuplicateField(usize),
    /// The flag name derived from field `i` is not a legal identifier.
    IllegalFlagName(usize),
    /// The flag name derived from field `i` equals an earlier flag name or
    /// the name of a type parameter.
    FlagCollision(usize),
}

/// The impl block that gives field `field` its setter.
pub struct Setter {
    pub field: usize,
    /// The fields whose flags the impl block is generic over, in field order.
    pub generic_flags: Vec<usize>,
    /// The instantiation the setter is defined on.
    pub receiver: Vec<FlagArg>,
    /// The instantiation the setter returns.
    pub result: Vec<FlagArg>,
}

/// Everything decided about the builder before any text is emitted.
pub struct BuilderPlan {
    pub builder_name: String,
    /// One flag name per field, in field order.
    pub flags: Vec<String>,
    /// The instantiation `new` is defined on.
    pub constructor: Vec<FlagArg>,
    /// One setter per field, in field order.
    pub setters: Vec<Setter>,
    /// The instantiation `build` is defined on.
    pub finalizer: Vec<FlagArg>,
}

/// Every flag fixed to `b`.
pub open spec fn all_fixed(n: nat, b: bool) -> Seq<FlagArg> {
    Seq::new(n, |k: int| FlagArg::Fixed(b))
}

/// The instantiation `new` is defined on: every flag unset.
pub open spec fn constructor_pattern(n: nat) -> Seq<FlagArg> {
    all_fixed(n, false)
}

/// The instantiation `build` is defined on: every flag set.
pub open spec fn finalizer_pattern(n: nat) -> Seq<FlagArg> {
    all_fixed(n, true)
}

/// Flag `i` fixed to `b`, every other flag left abstract.
pub open spec fn one_fixed(n: nat, i: int, b: bool) -> Seq<FlagArg> {
    Seq::new(n, |k: int| if k == i { FlagArg::Fixed(b) } else { FlagArg::Param(k as usize) })
}

/// The instantiation the setter of field `i` is defined on.
pub open spec fn receiver_pattern(n: nat, i: int) -> Seq<FlagArg> {
    one_fixed(n, i, false)
}

/// The instantiation the setter of field `i` returns.
pub open spec fn result_pattern(n: nat, i: int) -> Seq<FlagArg> {
    one_fixed(n, i, true)
}

/// The fields other than `i`, in order: those whose flags the setter of
/// field `i` is generic over.
pub open spec fn other_fields(n: nat, i: int) -> Seq<usize> {
    Seq::new((n - 1) as nat, |k: int| if k < i { k as usize } else { (k + 1) as usize })
}

pub open spec fn name_repeats(s: &Schema, i: int) -> bool {
    exists|j: int| 0 <= j < i && s.field_name(j) == s.field_name(i)
}

pub open spec fn flag_collides(s: &Schema, i: int) -> bool {
    (exists|j: int| 0 <= j < i && flag_text(s.field_name(j)) == flag_text(s.field_name(i)))
    || (exists|t: int| 0 <= t < s.type_params@.len()
        && s.type_params@[t].name@ == flag_text(s.field_name(i)))
}

/// What is wrong with field `i`, if anything, in the order the checks run.
pub open spec fn field_fault(s: &Schema, i: int) -> Option<GenError> {
    if name_repeats(s, i) {
        Some(GenError::DuplicateField(i as usize))
    } else if !ident_text_ok(flag_text(s.field_name(i))) {
        Some(GenError::IllegalFlagName(i as usize))
    } else if flag_collides(s, i) {
        Some(GenError::FlagCollision(i as usize))
    } else {
        None
    }
}

/// The fault of the first faulty field at or after `i`.
pub open spec fn first_fault(s: &Schema, i: int) -> Option<GenError>
    decreases s.width() - i,
{
    if i < 0 || i >= s.width() {
        None
    } else if field_fault(s, i) is Some {
        field_fault(s, i)
    } else {
        first_fault(s, i + 1)
    }
}

/// The error planning reports, if any.
pub open spec fn plan_error(s: &Schema) -> Option<GenError> {
    if !ident_text_ok(builder_text(s.name@)) {
        Some(GenError::IllegalBuilderName)
    } else {
        first_fault(s, 0)
    }
}

/// The setter of field `i` is planned as the flag discipline requires.
pub open spec fn setter_planned(st: Setter, n: nat, i: int) -> bool {
    &&& st.field == i
    &&& st.generic_flags@ == other_fields(n, i)
    &&& st.receiver@ == receiver_pattern(n, i)
    &&& st.result@ == result_pattern(n, i)
}

/// The plan that a well-formed schema gets.
pub open spec fn planned_for(p: &BuilderPlan, s: &Schema) -> bool {
    let n = s.width();
    &&& p.builder_name@ == builder_text(s.name@)
    &&& p.flags@.len() == n
    &&& forall|k: int| 0 <= k < n ==> #[trigger] p.flags@[k]@ == flag_text(s.field_name(k))
    &&& p.constructor@ == constructor_pattern(n)
    &&& p.finalizer@ == finalizer_pattern(n)
    &&& p.setters@.len() == n
    &&& forall|i: int| 0 <= i < n ==> setter_planned(#[trigger] p.setters@[i], n, i)
}

fn fixed_args(n: usize, b: bool) -> (r: Vec<FlagArg>)
    ensures
        r@ == all_fixed(n as nat, b),
{
    let mut r: Vec<FlagArg> = Vec::new();
    let mut k: usize = 0;
    while k < n
        invariant
            k <= n,
            r@ == all_fixed(k as nat, b),
        decreases n - k,
    {
        r.push(FlagArg::Fixed(b));
        k = k + 1;
        assert(r@ =~= all_fixed(k as nat, b));
    }
    r
}

fn one_fixed_args(n: usize, i: usize, b: bool) -> (r: Vec<FlagArg>)
    ensures
        r@ == one_fixed(n as nat, i as int, b),
{
    let mut r: Vec<FlagArg> = Vec::new();
    let mut k: usize = 0;
    while k < n
        invariant
            k <= n,
            r@ =~= one_fixed(k as nat, i as int, b),
        decreases n - k,
    {
        if k == i {
            r.push(FlagArg::Fixed(b));
        } else {
            r.push(FlagArg::Param(k));
        }
        k = k + 1;
        assert(r@ =~= one_fixed(k as nat, i as int, b));
    }
    r
}

fn others_of(n: usize, i: usize) -> (r: Vec<usize>)
    requires
        i < n,
    ensures
        r@ == other_fields(n as nat, i as int),
{
    let mut r: Vec<usize> = Vec::new();
    let mut k: usize = 0;
    while k < n
        invariant
            i < n,
            k <= n,
            r@ =~= if k <= i { other_fields((k + 1) as nat, i as int) } else { other_fields(k as nat, i as int) },
        decreases n - k,
    {
        if k != i {
            r.push(k);
        }
        k = k + 1;
        assert(r@ =~= if k <= i { other_fields((k + 1) as nat, i as int) } else { other_fields(k as nat, i as int) });
    }
    r
}

/// Whether field `i` has the same name as an earlier field.
fn repeats_earlier(fields: &Vec<FieldDef>, i: usize) -> (r: bool)
    requires
        i < fields@.len(),
    ensures
        r == exists|j: int| 0 <= j < i && fields@[j].name@ == fields@[i as int].name@,
{
    let mut j: usize = 0;
    while j < i
        invariant
            i < fields@.len(),
            j <= i,
            forall|m: int| 0 <= m < j ==> fields@[m].name@ != fields@[i as int].name@,
        decreases i - j,
    {
        if fields[j].name == fields[i].name {
            return true;
        }
        j = j + 1;
    }
    false
}

/// Whether `flag` equals one of `flags[..i]` or a type parameter's name.
fn collides(flags: &Vec<String>, i: usize, type_params: &Vec<TypeParam>, flag: &String) -> (r: bool)
    requires
        i <= flags@.len(),
    ensures
        r == ((exists|j: int| 0 <= j < i && flags@[j]@ == flag@)
            || (exists|t: int| 0 <= t < type_params@.len() && type_params@[t].name@ == flag@)),
{
    let mut j: usize = 0;
    while j < i
        invariant
            i <= flags@.len(),
            j <= i,
            forall|m: int| 0 <= m < j ==> flags@[m]@ != flag@,
        decreases i - j,
    {
        if flags[j] == *flag {
            return true;
        }
        j = j + 1;
    }
    let mut t: usize = 0;
    while t < type_params.len()
        invariant
            forall|m: int| 0 <= m < j ==> flags@[m]@ != flag@,
            j == i,
            t <= type_params@.len(),
            forall|m: int| 0 <= m < t ==> type_params@[m].name@ != flag@,
        decreases type_params@.len() - t,
    {
        if type_params[t].name == *flag {
            return true;
        }
        t = t + 1;
    }
    false
}

proof fn lemma_no_fault_before(s: &Schema, i: int)
    requires
        0 <= i <= s.width(),
        forall|k: int| 0 <= k < i ==> field_fault(s, k) is None,
    ensures
        first_fault(s, 0) == first_fault(s, i),
    decreases i,
{
    if i > 0 {
        lemma_no_fault_before(s, i - 1);
    }
}

/// Plans the builder for a schema: its name, one flag per field, and the
/// instantiation each of `new`, the setters and `build` is defined on.
///
/// Fails when the builder name is not a legal identifier, and otherwise at
/// the first field whose name repeats, whose flag name is not a legal
/// identifier, or whose flag name collides with another name in scope.
pub fn plan_builder(s: &Schema) -> (r: Result<BuilderPlan, GenError>)
    ensures
        r is Ok <==> plan_error(s) is None,
        r is Ok ==> planned_for(&r->Ok_0, s),
        r is Err ==> plan_error(s) == Some(r->Err_0),
{
    let bname = builder_name(&s.name);
    if !is_legal_ident(&bname) {
        return Err(GenError::IllegalBuilderName);
    }
    let n = s.fields.len();
    let mut flags: Vec<String> = Vec::new();
    let mut i: usize = 0;
    while i < n
        invariant
            n == s.width(),
            i <= n,
            ident_text_ok(builder_text(s.name@)),
            flags@.len() == i,
            forall|k: int| 0 <= k < i ==> #[trigger] flags@[k]@ == flag_text(s.field_name(k)),
            forall|k: int| 0 <= k < i ==> #[trigger] field_fault(s, k) is None,
        decreases n - i,
    {
        proof {
            lemma_no_fault_before(s, i as int);
        }
        if repeats_earlier(&s.fields, i) {
            proof {
                let j = choose|j: int| 0 <= j < i && s.fields@[j].name@ == s.fields@[i as int].name@;
                assert(s.field_name(j) == s.field_name(i as int));
            }
            assert(first_fault(s, i as int) == Some(GenError::DuplicateField(i)));
            return Err(GenError::DuplicateField(i));
        }
        let flag = flag_name(&s.fields[i].name);
        if !is_legal_ident(&flag) {
            assert(!name_repeats(s, i as int));
            assert(first_fault(s, i as int) == Some(GenError::IllegalFlagName(i)));
            return Err(GenError::IllegalFlagName(i));
        }
        if collides(&flags, i, &s.type_params, &flag) {
            proof {
                if exists|j: int| 0 <= j < i && flags@[j]@ == flag@ {
                    let j = choose|j: int| 0 <= j < i && flags@[j]@ == flag@;
                    assert(flag_text(s.field_name(j)) == flag_text(s.field_name(i as int)));
                }
            }
            assert(!name_repeats(s, i as int));
            assert(first_fault(s, i as int) == Some(GenError::FlagCollision(i)));
            return Err(GenError::FlagCollision(i));
        }
        proof {
            if exists|j: int| 0 <= j < i && flag_text(s.field_name(j)) == flag_text(s.field_name(i as int)) {
                let j = choose|j: int| 0 <= j < i && flag_text(s.field_name(j)) == flag_text(s.field_name(i as int));
                assert(flags@[j]@ == flag@);
            }
        }
        assert(!name_repeats(s, i as int));
        assert(field_fault(s, i as int) is None);
        flags.push(flag);
        i = i + 1;
    }
    proof {
        lemma_no_fault_before(s, n as int);
    }
    let mut setters: Vec<Setter> = Vec::new();
    let mut i: usize = 0;
    while i < n
        invariant
            i <= n,
            setters@.len() == i,
            forall|k: int| 0 <= k < i ==> setter_planned(#[trigger] setters@[k], n as nat, k),
        decreases n - i,
    {
        let st = Setter {
            field: i,
            generic_flags: others_of(n, i),
            receiver: one_fixed_args(n, i, false),
            result: one_fixed_args(n, i, true),
        };
        setters.push(st);
        i = i + 1;
    }
    Ok(BuilderPlan {
        builder_name: bname,
        flags,
        constructor: fixed_args(n, false),
        setters,
        finalizer: fixed_args(n, true),
    })
}

} // verus!
