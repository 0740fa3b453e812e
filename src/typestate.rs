//! What the emitted impl blocks mean: which flag states each operation is
//! defined on, and what each operation does to the flags and slots.
use vstd::prelude::*;
use vstd::set_lib::{set_int_range, lemma_int_range, lemma_subset_equality};
use crate::plan::{FlagArg, constructor_pattern, finalizer_pattern, receiver_pattern, result_pattern};

verus! {

/// Whether an impl block defined on instantiation `p` applies to a builder
/// whose flags are `s`: every fixed flag matches.
pub open spec fn admits(p: Seq<FlagArg>, s: Seq<bool>) -> bool {
    &&& p.len() == s.len()
    &&& forall|k: int| 0 <= k < p.len() ==> match #[trigger] p[k] {
        FlagArg::Fixed(b) => s[k] == b,
        FlagArg::Param(_) => true,
    }
}

/// The flags of instantiation `p` when its abstract parameters are bound by
/// the receiver's flags `s`.
pub open spec fn instantiate(p: Seq<FlagArg>, s: Seq<bool>) -> Seq<bool> {
    Seq::new(p.len(), |k: int| match p[k] {
        FlagArg::Fixed(b) => b,
        FlagArg::Param(j) => s[j as int],
    })
}

/// Whether an impl block defined on instantiation `p` applies to a builder
/// whose flags are `s`.
pub fn applies(p: &Vec<FlagArg>, s: &Vec<bool>) -> (r: bool)
    ensures
        r == admits(p@, s@),
{
    if p.len() != s.len() {
        return false;
    }
    let mut k: usize = 0;
    while k < p.len()
        invariant
            p@.len() == s@.len(),
            k <= p@.len(),
            forall|m: int| 0 <= m < k ==> match #[trigger] p@[m] {
                FlagArg::Fixed(b) => s@[m] == b,
                FlagArg::Param(_) => true,
            },
        decreases p@.len() - k,
    {
        match p[k] {
            FlagArg::Fixed(b) => {
                if s[k] != b {
                    return false;
                }
            },
            FlagArg::Param(_) => {},
        }
        k = k + 1;
    }
    true
}

/// The flags of the builder an operation returns: its result instantiation
/// `p`, with abstract parameters bound by the receiver's flags `s`.
pub fn flags_after(p: &Vec<FlagArg>, s: &Vec<bool>) -> (r: Vec<bool>)
    requires
        forall|k: int| 0 <= k < p@.len() ==> (#[trigger] p@[k] matches FlagArg::Param(j) ==> j < s@.len()),
    ensures
        r@ == instantiate(p@, s@),
{
    let mut r: Vec<bool> = Vec::new();
    let mut k: usize = 0;
    while k < p.len()
        invariant
            forall|k: int| 0 <= k < p@.len() ==> (#[trigger] p@[k] matches FlagArg::Param(j) ==> j < s@.len()),
            k <= p@.len(),
            r@ =~= instantiate(p@, s@).subrange(0, k as int),
        decreases p@.len() - k,
    {
        let b = match p[k] {
            FlagArg::Fixed(b) => b,
            FlagArg::Param(j) => s[j],
        };
        r.push(b);
        k = k + 1;
        assert(r@ =~= instantiate(p@, s@).subrange(0, k as int));
    }
    assert(r@ =~= instantiate(p@, s@));
    r
}

/// A builder value: its flags and its slots.
pub type BuilderState<V> = (Seq<bool>, Seq<Option<V>>);

/// What `new` returns: every flag unset, every slot empty.
pub open spec fn start<V>(n: nat) -> BuilderState<V> {
    (instantiate(constructor_pattern(n), Seq::empty()), Seq::new(n, |k: int| None))
}

/// What the setter of field `i` returns when given `v`.
pub open spec fn step<V>(n: nat, i: int, st: BuilderState<V>, v: V) -> BuilderState<V> {
    (instantiate(result_pattern(n, i), st.0), st.1.update(i, Some(v)))
}

/// Calls the setters of the fields in `order`, field `i` with `vals[i]`;
/// `None` if some setter is not defined on the state it is called on.
pub open spec fn run<V>(n: nat, order: Seq<int>, vals: Seq<V>, st: BuilderState<V>) -> Option<BuilderState<V>>
    decreases order.len(),
{
    if order.len() == 0 {
        Some(st)
    } else if admits(receiver_pattern(n, order[0]), st.0) {
        run(n, order.drop_first(), vals, step(n, order[0], st, vals[order[0]]))
    } else {
        None
    }
}

/// What `build` returns, the record's field values in declared order;
/// `None` if `build` is not defined on the state.
pub open spec fn finish<V>(n: nat, st: BuilderState<V>) -> Option<Seq<V>> {
    if admits(finalizer_pattern(n), st.0) {
        Some(Seq::new(n, |k: int| st.1[k]->Some_0))
    } else {
        None
    }
}

/// A setter is callable exactly when its field's flag is unset, and it sets
/// that flag and leaves every other flag as it was.
pub proof fn lemma_setter_flags(n: nat, i: int, s: Seq<bool>)
    requires
        0 <= i < n <= usize::MAX,
        s.len() == n,
    ensures
        admits(receiver_pattern(n, i), s) <==> !s[i],
        instantiate(result_pattern(n, i), s) == s.update(i, true),
{
    if !s[i] {
        assert forall|k: int| 0 <= k < n implies match #[trigger] receiver_pattern(n, i)[k] {
            FlagArg::Fixed(b) => s[k] == b,
            FlagArg::Param(_) => true,
        } by {}
    } else {
        assert(receiver_pattern(n, i)[i] == FlagArg::Fixed(false));
    }
    assert(instantiate(result_pattern(n, i), s) =~= s.update(i, true));
}

/// Once a field's setter has been called, that setter is not defined on the
/// state it returned.
pub proof fn lemma_setter_once(n: nat, i: int, s: Seq<bool>)
    requires
        0 <= i < n <= usize::MAX,
        s.len() == n,
        admits(receiver_pattern(n, i), s),
    ensures
        !admits(receiver_pattern(n, i), instantiate(result_pattern(n, i), s)),
{
    lemma_setter_flags(n, i, s);
    lemma_setter_flags(n, i, s.update(i, true));
}

/// `build` is defined on no state in which some field has not been set: for
/// the flags of a set `set_fields` of fields that misses one, it is absent.
pub proof fn lemma_build_needs_every_field(n: nat, set_fields: Set<int>, missing: int)
    requires
        0 <= missing < n,
        !set_fields.contains(missing),
    ensures
        !admits(finalizer_pattern(n), Seq::new(n, |k: int| set_fields.contains(k))),
{
    let s = Seq::new(n, |k: int| set_fields.contains(k));
    assert(finalizer_pattern(n)[missing] == FlagArg::Fixed(true));
    assert(!s[missing]);
}

/// A record without fields can be built straight from `new`, with no
/// setter called.
pub proof fn lemma_empty_record_builds<V>()
    ensures
        admits(finalizer_pattern(0), start::<V>(0).0),
        finish(0, start::<V>(0)) == Some(Seq::<V>::empty()),
{
    assert(start::<V>(0).0 =~= Seq::empty());
    assert(Seq::new(0, |k: int| start::<V>(0).1[k]->Some_0) =~= Seq::<V>::empty());
}

proof fn lemma_run_rest<V>(n: nat, rest: Seq<int>, vals: Seq<V>, st: BuilderState<V>)
    requires
        n <= usize::MAX,
        rest.no_duplicates(),
        forall|j: int| 0 <= j < rest.len() ==> 0 <= #[trigger] rest[j] < n,
        vals.len() == n,
        st.0.len() == n,
        st.1.len() == n,
        forall|j: int| 0 <= j < rest.len() ==> !st.0[#[trigger] rest[j]],
        forall|k: int| 0 <= k < n && #[trigger] st.0[k] ==> st.1[k] == Some(vals[k]),
    ensures
        run(n, rest, vals, st) is Some,
        ({
            let e = run(n, rest, vals, st)->Some_0;
            &&& e.0.len() == n
            &&& e.1.len() == n
            &&& forall|k: int| 0 <= k < n ==> #[trigger] e.0[k] == (st.0[k] || rest.contains(k))
            &&& forall|k: int| 0 <= k < n && #[trigger] e.0[k] ==> e.1[k] == Some(vals[k])
        }),
    decreases rest.len(),
{
    if rest.len() > 0 {
        let i = rest[0];
        lemma_setter_flags(n, i, st.0);
        let nx = step(n, i, st, vals[i]);
        let tail = rest.drop_first();
        assert forall|j: int| 0 <= j < tail.len() implies !nx.0[#[trigger] tail[j]] by {
            assert(tail[j] == rest[j + 1]);
        }
        assert forall|j: int| 0 <= j < tail.len() implies 0 <= #[trigger] tail[j] < n by {
            assert(tail[j] == rest[j + 1]);
        }
        lemma_run_rest(n, tail, vals, nx);
        let e = run(n, rest, vals, st)->Some_0;
        assert forall|k: int| 0 <= k < n implies #[trigger] e.0[k] == (st.0[k] || rest.contains(k)) by {
            if rest.contains(k) && k != i {
                let j = choose|j: int| 0 <= j < rest.len() && rest[j] == k;
                assert(tail[j - 1] == k);
            }
            if tail.contains(k) {
                let j = choose|j: int| 0 <= j < tail.len() && tail[j] == k;
                assert(rest[j + 1] == k);
            }
            assert(rest[0] == i);
        }
    }
}

/// Calling every setter exactly once, in any order, and then `build` gives
/// the record with every field holding the value its setter was given.
pub proof fn lemma_any_order_builds<V>(n: nat, order: Seq<int>, vals: Seq<V>)
    requires
        n <= usize::MAX,
        order.len() == n,
        order.no_duplicates(),
        forall|j: int| 0 <= j < n ==> 0 <= #[trigger] order[j] < n,
        vals.len() == n,
    ensures
        run(n, order, vals, start(n)) is Some,
        finish(n, run(n, order, vals, start(n))->Some_0) == Some(vals),
{
    let st = start::<V>(n);
    assert(st.0 =~= Seq::new(n, |k: int| false));
    lemma_run_rest(n, order, vals, st);
    let e = run(n, order, vals, st)->Some_0;
    order.unique_seq_to_set();
    lemma_int_range(0, n as int);
    assert(order.to_set().subset_of(set_int_range(0, n as int)));
    lemma_subset_equality(order.to_set(), set_int_range(0, n as int));
    assert forall|k: int| 0 <= k < n implies #[trigger] e.0[k] by {
        assert(set_int_range(0, n as int).contains(k));
        assert(order.to_set().contains(k));
    }
    assert forall|k: int| 0 <= k < n implies match #[trigger] finalizer_pattern(n)[k] {
        FlagArg::Fixed(b) => e.0[k] == b,
        FlagArg::Param(_) => true,
    } by {}
    assert forall|k: int| 0 <= k < n implies e.1[k] == Some(vals[k]) by {
        assert(e.0[k]);
    }
    assert(Seq::new(n, |k: int| e.1[k]->Some_0) =~= vals);
}

} // verus!
