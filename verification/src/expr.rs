//! Symbolic discriminant expressions.
//!
//! A discriminant is described by an unevaluated constant expression: a
//! 32-bit literal, a reference to a host-supplied constant (an opaque
//! symbol, identified by the index the host issued for it), or the symbolic
//! successor of another expression. The resolver only composes expressions
//! by taking successors; evaluation happens when a contract is realized,
//! against an environment that binds every symbol to its 32-bit value.

use vstd::prelude::*;

verus! {

/// An unevaluated discriminant expression.
#[derive(Debug, PartialEq, Eq)]
pub enum DiscExpr {
    /// A 32-bit integer literal.
    Lit(u32),
    /// An opaque host constant, identified by the symbol index the host
    /// issued when it supplied the schema.
    Sym(u32),
    /// The symbolic successor ("+1") of another expression.
    Succ(Box<DiscExpr>),
}

impl Clone for DiscExpr {
    fn clone(&self) -> (r: Self)
        ensures
            r == *self,
        decreases self,
    {
        match self {
            DiscExpr::Lit(n) => DiscExpr::Lit(*n),
            DiscExpr::Sym(s) => DiscExpr::Sym(*s),
            DiscExpr::Succ(inner) => DiscExpr::Succ(Box::new((**inner).clone())),
        }
    }
}

/// The symbolic successor of `e`.
pub open spec fn spec_succ(e: DiscExpr) -> DiscExpr {
    DiscExpr::Succ(Box::new(e))
}

/// `base` wrapped in `n` successors.
pub open spec fn spec_chain(base: DiscExpr, n: nat) -> DiscExpr
    decreases n,
{
    if n == 0 {
        base
    } else {
        spec_succ(spec_chain(base, (n - 1) as nat))
    }
}

/// The 32-bit value of `e` under the environment `env`, which binds the
/// host's symbols by index. Successor wraps around at the 32-bit boundary,
/// as a cast to an unsigned 32-bit integer does. A symbol the environment
/// does not bind reads as zero.
pub open spec fn spec_eval(e: DiscExpr, env: Seq<u32>) -> u32
    decreases e,
{
    match e {
        DiscExpr::Lit(n) => n,
        DiscExpr::Sym(s) => if (s as int) < env.len() {
            env[s as int]
        } else {
            0u32
        },
        DiscExpr::Succ(inner) => if spec_eval(*inner, env) == u32::MAX {
            0u32
        } else {
            (spec_eval(*inner, env) + 1) as u32
        },
    }
}

impl DiscExpr {
    /// The symbolic successor of `self`.
    pub fn succ(self) -> (r: DiscExpr)
        ensures
            r == spec_succ(self),
    {
        DiscExpr::Succ(Box::new(self))
    }

    /// Evaluates `self` under `env`, wrapping at the 32-bit boundary.
    pub fn eval(&self, env: &Vec<u32>) -> (r: u32)
        ensures
            r == spec_eval(*self, env@),
        decreases self,
    {
        match self {
            DiscExpr::Lit(n) => *n,
            DiscExpr::Sym(s) => {
                if (*s as usize) < env.len() {
                    env[*s as usize]
                } else {
                    0u32
                }
            },
            DiscExpr::Succ(inner) => {
                let v = inner.eval(env);
                if v == u32::MAX {
                    0u32
                } else {
                    v + 1
                }
            },
        }
    }
}

/// A chain of `n` successors around the literal zero evaluates to `n`
/// whenever `n` fits in 32 bits, under every environment.
pub proof fn lemma_eval_chain_zero(n: nat, env: Seq<u32>)
    requires
        n <= u32::MAX,
    ensures
        spec_eval(spec_chain(DiscExpr::Lit(0), n), env) == n,
    decreases n,
{
    if n > 0 {
        lemma_eval_chain_zero((n - 1) as nat, env);
    }
}

} // verus!
