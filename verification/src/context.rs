//! The scoped binding environment the checker consults: a stack of scopes,
//! each a sequence of (identifier, type) pairs, with lexical shadowing and
//! guaranteed restoration.

use vstd::prelude::*;

use crate::exprs::Ident;
use crate::types::Type;

verus! {

/// The abstract value of one scope: its bindings in push order, with
/// identifiers as character sequences.
pub open spec fn scope_view(s: Seq<(Ident, Type)>) -> Seq<(Seq<char>, Type)> {
    s.map_values(|p: (Ident, Type)| (p.0@, p.1))
}

/// The first match for `id` in one scope, scanning from the most recently
/// pushed binding backward.
pub open spec fn scope_lookup(sc: Seq<(Seq<char>, Type)>, id: Seq<char>) -> Option<Type>
    decreases sc.len(),
{
    if sc.len() == 0 {
        None
    } else if sc.last().0 == id {
        Some(sc.last().1)
    } else {
        scope_lookup(sc.drop_last(), id)
    }
}

/// The first match for `id` in a stack of scopes, scanning from the most
/// recently pushed scope backward.
pub open spec fn env_lookup(env: Seq<Seq<(Seq<char>, Type)>>, id: Seq<char>) -> Option<Type>
    decreases env.len(),
{
    if env.len() == 0 {
        None
    } else {
        match scope_lookup(env.last(), id) {
            Some(t) => Some(t),
            None => env_lookup(env.drop_last(), id),
        }
    }
}

/// A scoped mapping from identifier to type. Lookup resolves to the most
/// recently pushed matching binding; a scope pushed for one operation is
/// removed exactly when that operation completes, whether it succeeds or
/// fails.
pub struct TypeContext {
    scopes: Vec<Vec<(Ident, Type)>>,
}

impl View for TypeContext {
    type V = Seq<Seq<(Seq<char>, Type)>>;

    closed spec fn view(&self) -> Seq<Seq<(Seq<char>, Type)>> {
        self.scopes@.map_values(|sc: Vec<(Ident, Type)>| scope_view(sc@))
    }
}

impl TypeContext {
    /// An environment with zero scopes.
    pub fn empty() -> (ctx: TypeContext)
        ensures
            ctx@ == Seq::<Seq<(Seq<char>, Type)>>::empty(),
    {
        let ctx = TypeContext { scopes: Vec::new() };
        proof {
            assert(ctx@ =~= Seq::<Seq<(Seq<char>, Type)>>::empty());
        }
        ctx
    }

    /// Pushes `bindings` as one new innermost scope. Within the scope a
    /// later entry shadows an earlier one of the same identifier.
    pub fn push_bindings(&mut self, bindings: Vec<(Ident, Type)>)
        ensures
            final(self)@ == old(self)@.push(scope_view(bindings@)),
    {
        let ghost bv = bindings@;
        self.scopes.push(bindings);
        proof {
            assert(self@ =~= old(self)@.push(scope_view(bv)));
        }
    }

    /// Removes the innermost scope, restoring the environment that the
    /// matching push extended.
    pub fn pop_bindings(&mut self)
        requires
            old(self)@.len() > 0,
        ensures
            final(self)@ == old(self)@.drop_last(),
    {
        let _ = self.scopes.pop();
        proof {
            assert(self@ =~= old(self)@.drop_last());
        }
    }

    /// Looks up `id`: a linear scan from the most recently pushed binding
    /// backward, returning the first match.
    pub fn lookup(&self, id: &Ident) -> (r: Option<&Type>)
        ensures
            match r {
                Some(t) => env_lookup(self@, id@) == Some(*t),
                None => env_lookup(self@, id@) is None,
            },
    {
        let ghost env = self@;
        let mut i = self.scopes.len();
        proof {
            assert(env.take(i as int) =~= env);
        }
        while i > 0
            invariant
                i <= self.scopes.len(),
                env == self@,
                env_lookup(env, id@) == env_lookup(env.take(i as int), id@),
            decreases i,
        {
            i = i - 1;
            let sc = &self.scopes[i];
            let ghost sv = scope_view(sc@);
            proof {
                assert(env[i as int] == sv);
                assert(sv.take(sc@.len() as int) =~= sv);
            }
            let mut j = sc.len();
            while j > 0
                invariant
                    j <= sc.len(),
                    env == self@,
                    i < self.scopes.len(),
                    sc == &self.scopes[i as int],
                    sv == scope_view(sc@),
                    env_lookup(env, id@) == env_lookup(env.take(i as int + 1), id@),
                    scope_lookup(sv, id@) == scope_lookup(sv.take(j as int), id@),
                decreases j,
            {
                j = j - 1;
                proof {
                    assert(sv.take(j as int + 1).last() == (sc@[j as int].0@, sc@[j as int].1));
                    assert(sv.take(j as int + 1).drop_last() =~= sv.take(j as int));
                }
                if sc[j].0 == *id {
                    proof {
                        assert(scope_lookup(sv, id@) == Some(sc@[j as int].1));
                        assert(env.take(i as int + 1).last() == sv);
                        assert(env_lookup(env, id@) == Some(sc@[j as int].1));
                    }
                    return Some(&sc[j].1);
                }
            }
            proof {
                assert(sv.take(0) =~= Seq::<(Seq<char>, Type)>::empty());
                assert(scope_lookup(sv, id@) is None);
                assert(env.take(i as int + 1).last() == sv);
                assert(env.take(i as int + 1).drop_last() =~= env.take(i as int));
            }
        }
        proof {
            assert(env.take(0) =~= Seq::<Seq<(Seq<char>, Type)>>::empty());
        }
        None
    }
}

/// Lexical shadowing: with a new innermost scope pushed, lookup prefers its
/// bindings and falls back to the enclosing scopes only when the scope has
/// no match.
pub proof fn lemma_lookup_shadowing(
    env: Seq<Seq<(Seq<char>, Type)>>,
    scope: Seq<(Seq<char>, Type)>,
    id: Seq<char>,
)
    ensures
        env_lookup(env.push(scope), id) == match scope_lookup(scope, id) {
            Some(t) => Some(t),
            None => env_lookup(env, id),
        },
{
    assert(env.push(scope).last() == scope);
    assert(env.push(scope).drop_last() =~= env);
}

/// Restoration: pushing a scope and removing it leaves the environment as it
/// was, so identifiers introduced by the removed scope resolve afterward
/// exactly as they did before the push.
pub proof fn lemma_push_pop_restores(
    env: Seq<Seq<(Seq<char>, Type)>>,
    scope: Seq<(Seq<char>, Type)>,
    id: Seq<char>,
)
    ensures
        env.push(scope).drop_last() == env,
        env_lookup(env.push(scope).drop_last(), id) == env_lookup(env, id),
{
    assert(env.push(scope).drop_last() =~= env);
}

} // verus!
