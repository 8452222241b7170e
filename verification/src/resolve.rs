//! Discriminant resolution: a pure function over an ordered variant list.
//!
//! The resolver maintains a symbolic running value `next`, initialized to
//! the literal zero and never evaluated, only composed. For each variant in
//! declaration order:
//!
//! - a default arm resolves to no discriminant and does not advance `next`;
//! - an explicit discriminant `E` resolves to `E` and sets `next` to the
//!   symbolic successor of `E`;
//! - an implicit variant resolves to the current `next` and advances `next`
//!   to its symbolic successor.
//!
//! Duplicate resolved discriminants across variants are not detected here:
//! at decode time the first declared match wins.

use vstd::prelude::*;

use crate::expr::{lemma_eval_chain_zero, spec_chain, spec_eval, spec_succ, DiscExpr};
use crate::schema::{DiscriminantSpec, EnumSchema, FieldShape, ShapeModel, VariantModel};

verus! {

/// One variant together with its resolved discriminant: `None` exactly for
/// the default arm, otherwise a symbolic, unevaluated expression.
#[derive(Debug, PartialEq, Eq)]
pub struct ResolvedVariant {
    /// The variant's name, as a host-issued identifier.
    pub name: u32,
    /// The variant's field shape.
    pub shape: FieldShape,
    /// The resolved discriminant expression, or `None` for the default arm.
    pub resolved: Option<DiscExpr>,
}

/// The mathematical model of a [`ResolvedVariant`].
pub struct ResolvedModel {
    pub name: u32,
    pub shape: ShapeModel,
    pub resolved: Option<DiscExpr>,
}

impl View for ResolvedVariant {
    type V = ResolvedModel;

    open spec fn view(&self) -> ResolvedModel {
        ResolvedModel { name: self.name, shape: self.shape@, resolved: self.resolved }
    }
}

/// The running value after one variant: unchanged by a default arm, the
/// successor of an explicit discriminant, the successor of the running
/// value for an implicit variant.
pub open spec fn spec_step(v: VariantModel, next: DiscExpr) -> DiscExpr {
    match v.disc {
        DiscriminantSpec::DefaultArm => next,
        DiscriminantSpec::Explicit(e) => spec_succ(e),
        DiscriminantSpec::Implicit => spec_succ(next),
    }
}

/// What one variant resolves to, given the running value `next`.
pub open spec fn spec_resolved_of(v: VariantModel, next: DiscExpr) -> Option<DiscExpr> {
    match v.disc {
        DiscriminantSpec::DefaultArm => None,
        DiscriminantSpec::Explicit(e) => Some(e),
        DiscriminantSpec::Implicit => Some(next),
    }
}

/// The running value after all of `vs`, starting from `next`.
pub open spec fn spec_state(vs: Seq<VariantModel>, next: DiscExpr) -> DiscExpr
    decreases vs.len(),
{
    if vs.len() == 0 {
        next
    } else {
        spec_state(vs.drop_first(), spec_step(vs[0], next))
    }
}

/// The resolved discriminants of `vs`, starting from the running value
/// `next`: one entry per variant, in declaration order.
pub open spec fn spec_resolve_from(vs: Seq<VariantModel>, next: DiscExpr) -> Seq<
    Option<DiscExpr>,
>
    decreases vs.len(),
{
    if vs.len() == 0 {
        Seq::empty()
    } else {
        seq![spec_resolved_of(vs[0], next)] + spec_resolve_from(
            vs.drop_first(),
            spec_step(vs[0], next),
        )
    }
}

/// The resolved discriminants of `vs`, starting from the literal zero.
pub open spec fn spec_resolve(vs: Seq<VariantModel>) -> Seq<Option<DiscExpr>> {
    spec_resolve_from(vs, DiscExpr::Lit(0))
}

proof fn lemma_resolve_from_len(vs: Seq<VariantModel>, next: DiscExpr)
    ensures
        spec_resolve_from(vs, next).len() == vs.len(),
    decreases vs.len(),
{
    if vs.len() > 0 {
        lemma_resolve_from_len(vs.drop_first(), spec_step(vs[0], next));
    }
}

/// Resolution has one entry per variant.
pub proof fn lemma_resolve_len(vs: Seq<VariantModel>)
    ensures
        spec_resolve(vs).len() == vs.len(),
{
    lemma_resolve_from_len(vs, DiscExpr::Lit(0));
}

proof fn lemma_resolve_from_snoc(vs: Seq<VariantModel>, v: VariantModel, next: DiscExpr)
    ensures
        spec_resolve_from(vs.push(v), next) == spec_resolve_from(vs, next).push(
            spec_resolved_of(v, spec_state(vs, next)),
        ),
        spec_state(vs.push(v), next) == spec_step(v, spec_state(vs, next)),
    decreases vs.len(),
{
    lemma_resolve_from_len(vs, next);
    if vs.len() == 0 {
        assert(vs.push(v)[0] == v);
        assert(vs.push(v).drop_first() =~= Seq::<VariantModel>::empty());
        assert(spec_state(vs, next) == next);
        assert(spec_state(Seq::<VariantModel>::empty(), spec_step(v, next)) == spec_step(v, next));
        assert(spec_resolve_from(Seq::<VariantModel>::empty(), spec_step(v, next))
            =~= Seq::<Option<DiscExpr>>::empty());
        assert(spec_resolve_from(vs, next) =~= Seq::<Option<DiscExpr>>::empty());
        assert(spec_resolve_from(vs.push(v), next) =~= spec_resolve_from(vs, next).push(
            spec_resolved_of(v, spec_state(vs, next)),
        ));
    } else {
        assert(vs.push(v)[0] == vs[0]);
        assert(vs.push(v).drop_first() =~= vs.drop_first().push(v));
        lemma_resolve_from_snoc(vs.drop_first(), v, spec_step(vs[0], next));
        assert(spec_state(vs.push(v), next) == spec_state(
            vs.drop_first().push(v),
            spec_step(vs[0], next),
        ));
        assert(spec_resolve_from(vs.push(v), next) =~= spec_resolve_from(vs, next).push(
            spec_resolved_of(v, spec_state(vs, next)),
        ));
    }
}

/// The resolved variants of `vs`: each variant's name and shape unchanged,
/// together with the discriminant that [`spec_resolve`] assigns it.
pub open spec fn spec_resolved_models(vs: Seq<VariantModel>) -> Seq<ResolvedModel> {
    Seq::new(
        vs.len(),
        |i: int|
            ResolvedModel { name: vs[i].name, shape: vs[i].shape, resolved: spec_resolve(vs)[i] },
    )
}

/// Resolves the variants of `schema` in declaration order, starting the
/// implicit sequence at the literal zero.
///
/// Returns one entry per variant, carrying the variant's name and shape
/// unchanged, and its resolved discriminant: `None` exactly for a default
/// arm, otherwise the symbolic expression that [`spec_resolve`] assigns.
/// The expressions are composed, never evaluated.
pub fn resolve(schema: &EnumSchema) -> (r: Vec<ResolvedVariant>)
    ensures
        r@.len() == schema@.variants.len(),
        forall|i: int|
            0 <= i < r@.len() ==> {
                &&& (#[trigger] r@[i])@.name == schema@.variants[i].name
                &&& r@[i]@.shape == schema@.variants[i].shape
                &&& r@[i]@.resolved == spec_resolve(schema@.variants)[i]
            },
        r@.map_values(|rv: ResolvedVariant| rv@) == spec_resolved_models(schema@.variants),
{
    let ghost all = schema@.variants;
    let n = schema.variants.len();
    let mut out: Vec<ResolvedVariant> = Vec::new();
    let mut next = DiscExpr::Lit(0);
    let mut i: usize = 0;
    proof {
        assert(all.take(0) =~= Seq::<VariantModel>::empty());
    }
    while i < n
        invariant
            n == schema.variants.len(),
            all == schema@.variants,
            i <= n,
            out@.len() == i,
            next == spec_state(all.take(i as int), DiscExpr::Lit(0)),
            out@.map_values(|rv: ResolvedVariant| rv@.resolved) == spec_resolve_from(
                all.take(i as int),
                DiscExpr::Lit(0),
            ),
            forall|j: int|
                0 <= j < i ==> {
                    &&& (#[trigger] out@[j])@.name == all[j].name
                    &&& out@[j]@.shape == all[j].shape
                },
        decreases n - i,
    {
        proof {
            assert(all[i as int] == schema.variants[i as int]@);
            assert(all.take(i as int).push(all[i as int]) =~= all.take(i + 1));
            lemma_resolve_from_snoc(all.take(i as int), all[i as int], DiscExpr::Lit(0));
        }
        let v = &schema.variants[i];
        let entry: ResolvedVariant;
        match &v.disc {
            DiscriminantSpec::DefaultArm => {
                entry = ResolvedVariant { name: v.name, shape: v.shape.clone(), resolved: None };
            },
            DiscriminantSpec::Explicit(e) => {
                let stepped = e.clone();
                entry = ResolvedVariant {
                    name: v.name,
                    shape: v.shape.clone(),
                    resolved: Some(e.clone()),
                };
                next = stepped.succ();
            },
            DiscriminantSpec::Implicit => {
                let current = next.clone();
                next = next.succ();
                entry = ResolvedVariant {
                    name: v.name,
                    shape: v.shape.clone(),
                    resolved: Some(current),
                };
            },
        }
        out.push(entry);
        proof {
            assert(out@.map_values(|rv: ResolvedVariant| rv@.resolved) =~= spec_resolve_from(
                all.take(i + 1),
                DiscExpr::Lit(0),
            ));
        }
        i = i + 1;
    }
    proof {
        assert(all.take(n as int) =~= all);
        lemma_resolve_len(all);
        assert(forall|j: int|
            0 <= j < n ==> (#[trigger] out@[j])@.resolved == out@.map_values(
                |rv: ResolvedVariant| rv@.resolved,
            )[j]);
        assert(out@.map_values(|rv: ResolvedVariant| rv@) =~= spec_resolved_models(
            schema@.variants,
        ));
    }
    out
}

proof fn lemma_resolve_from_none_iff(vs: Seq<VariantModel>, next: DiscExpr, i: int)
    requires
        0 <= i < vs.len(),
    ensures
        spec_resolve_from(vs, next)[i] is None <==> vs[i].disc is DefaultArm,
    decreases i,
{
    lemma_resolve_from_len(vs.drop_first(), spec_step(vs[0], next));
    if i > 0 {
        assert(vs.drop_first()[i - 1] == vs[i]);
        lemma_resolve_from_none_iff(vs.drop_first(), spec_step(vs[0], next), i - 1);
    }
}

/// A variant resolves to no discriminant exactly when it is the default
/// arm.
pub proof fn lemma_resolve_none_iff_default(vs: Seq<VariantModel>, i: int)
    requires
        0 <= i < vs.len(),
    ensures
        spec_resolve(vs)[i] is None <==> vs[i].disc is DefaultArm,
{
    lemma_resolve_from_none_iff(vs, DiscExpr::Lit(0), i);
}

/// Resolution is deterministic: an unchanged schema always resolves to an
/// identical resolved-discriminant sequence.
pub proof fn lemma_resolve_deterministic(a: Seq<VariantModel>, b: Seq<VariantModel>)
    requires
        a == b,
    ensures
        spec_resolve(a) == spec_resolve(b),
{
}

/// Successor chains compose: a chain around a successor is the successor of
/// the chain.
proof fn lemma_chain_succ(base: DiscExpr, n: nat)
    ensures
        spec_chain(spec_succ(base), n) == spec_succ(spec_chain(base, n)),
    decreases n,
{
    if n > 0 {
        lemma_chain_succ(base, (n - 1) as nat);
    }
}

proof fn lemma_implicit_from(vs: Seq<VariantModel>, next: DiscExpr, i: int)
    requires
        0 <= i < vs.len(),
        forall|j: int| 0 <= j <= i ==> (#[trigger] vs[j].disc) is Implicit,
    ensures
        spec_resolve_from(vs, next)[i] == Some(spec_chain(next, i as nat)),
    decreases i,
{
    lemma_resolve_from_len(vs.drop_first(), spec_step(vs[0], next));
    if i == 0 {
    } else {
        assert(forall|j: int|
            0 <= j <= i - 1 ==> vs.drop_first()[j] == #[trigger] vs[j + 1]);
        lemma_implicit_from(vs.drop_first(), spec_succ(next), i - 1);
        lemma_chain_succ(next, (i - 1) as nat);
    }
}

/// Implicit increment: when every variant up to and including position `i`
/// is implicit, the variant at `i` resolves to the literal zero wrapped in
/// `i` successors, and that expression evaluates to `i` under every
/// environment whenever `i` fits in 32 bits. In particular an all-implicit
/// prefix resolves to `0, 1, 2, ...` in declaration order.
pub proof fn lemma_implicit_increment(vs: Seq<VariantModel>, i: int, env: Seq<u32>)
    requires
        0 <= i < vs.len(),
        forall|j: int| 0 <= j <= i ==> (#[trigger] vs[j].disc) is Implicit,
    ensures
        spec_resolve(vs)[i] == Some(spec_chain(DiscExpr::Lit(0), i as nat)),
        i <= u32::MAX ==> spec_eval(spec_resolve(vs)[i]->Some_0, env) == i,
{
    lemma_implicit_from(vs, DiscExpr::Lit(0), i);
    if i <= u32::MAX {
        lemma_eval_chain_zero(i as nat, env);
    }
}

proof fn lemma_explicit_from(vs: Seq<VariantModel>, next: DiscExpr, k: int, e: DiscExpr)
    requires
        0 <= k,
        k + 1 < vs.len(),
        vs[k].disc == DiscriminantSpec::Explicit(e),
        vs[k + 1].disc is Implicit,
    ensures
        spec_resolve_from(vs, next)[k + 1] == Some(spec_succ(e)),
    decreases k,
{
    lemma_resolve_from_len(vs.drop_first(), spec_step(vs[0], next));
    if k == 0 {
        assert(spec_step(vs[0], next) == spec_succ(e));
        assert(vs.drop_first()[0] == vs[1]);
        assert(spec_resolve_from(vs, next)[1] == spec_resolve_from(
            vs.drop_first(),
            spec_succ(e),
        )[0]);
    } else {
        assert(vs.drop_first()[k - 1] == vs[k]);
        assert(vs.drop_first()[k] == vs[k + 1]);
        lemma_explicit_from(vs.drop_first(), spec_step(vs[0], next), k - 1, e);
    }
}

/// Explicit override propagation: when the variant at position `k` has the
/// explicit discriminant `e` and the variant at `k + 1` is implicit, the
/// latter resolves to the symbolic successor of `e`, whatever stands before
/// `k`.
pub proof fn lemma_explicit_override(vs: Seq<VariantModel>, k: int, e: DiscExpr)
    requires
        0 <= k,
        k + 1 < vs.len(),
        vs[k].disc == DiscriminantSpec::Explicit(e),
        vs[k + 1].disc is Implicit,
    ensures
        spec_resolve(vs)[k + 1] == Some(spec_succ(e)),
{
    lemma_explicit_from(vs, DiscExpr::Lit(0), k, e);
}

proof fn lemma_default_from(vs: Seq<VariantModel>, next: DiscExpr, p: int)
    requires
        0 <= p < vs.len(),
        vs[p].disc is DefaultArm,
    ensures
        spec_resolve_from(vs, next) == spec_resolve_from(vs.remove(p), next).insert(
            p,
            None::<DiscExpr>,
        ),
    decreases p,
{
    lemma_resolve_from_len(vs, next);
    lemma_resolve_from_len(vs.remove(p), next);
    if p == 0 {
        assert(vs.remove(0) =~= vs.drop_first());
        assert(spec_resolve_from(vs, next) =~= spec_resolve_from(vs.remove(0), next).insert(
            0,
            None::<DiscExpr>,
        ));
    } else {
        assert(vs.remove(p)[0] == vs[0]);
        assert(vs.remove(p).drop_first() =~= vs.drop_first().remove(p - 1));
        assert(vs.drop_first()[p - 1] == vs[p]);
        lemma_default_from(vs.drop_first(), spec_step(vs[0], next), p - 1);
        lemma_resolve_from_len(vs.drop_first(), spec_step(vs[0], next));
        lemma_resolve_from_len(vs.drop_first().remove(p - 1), spec_step(vs[0], next));
        assert(spec_resolve_from(vs, next) =~= spec_resolve_from(vs.remove(p), next).insert(
            p,
            None::<DiscExpr>,
        ));
    }
}

/// Default-arm exclusion: a default arm never advances the implicit
/// counter. Removing the default arm at position `p` leaves every other
/// variant's resolved discriminant unchanged; the sequence with the arm
/// present is the sequence without it, with `None` inserted back at `p`.
pub proof fn lemma_default_arm_exclusion(vs: Seq<VariantModel>, p: int)
    requires
        0 <= p < vs.len(),
        vs[p].disc is DefaultArm,
    ensures
        spec_resolve(vs) == spec_resolve(vs.remove(p)).insert(p, None::<DiscExpr>),
{
    lemma_default_from(vs, DiscExpr::Lit(0), p);
}

} // verus!
