//! The checking algorithm: a pure structural recursion over the expression
//! tree that consults the environment and produces the tree's type or a
//! terminal error.

use vstd::prelude::*;

use crate::context::{env_lookup, scope_view, TypeContext};
use crate::exprs::{expr_text, Apply, ArithOp, BinOp, CmpOp, Expr, Fun, Ident, If, LetFun, LetRec, Literal};
use crate::types::{type_text, Type};

verus! {

/// The abstract value of an environment: a stack of scopes, each a sequence
/// of (identifier, type) pairs.
pub type Env = Seq<Seq<(Seq<char>, Type)>>;

/// The abstract value of a checking failure: which error occurred, with the
/// data it names.
pub enum ErrorModel {
    /// A variable occurrence that no scope binds.
    UnboundVariable(Seq<char>),
    /// An expression of the wrong type: expected, actual, and the offending
    /// sub-expression.
    TypeMismatch(Type, Type, Expr),
    /// The two arms of an `if` with different types.
    ArmMismatch(Type, Type),
    /// An application whose function part is not an arrow; carries the
    /// offending sub-expression.
    NotAFunction(Expr),
    /// A `letrec` group whose names are not pairwise distinct; carries the
    /// names of the whole group.
    DuplicateDefinition(Seq<Seq<char>>),
}

/// The error a check produces: a closed kind, and a human-readable message
/// that embeds canonically rendered types and expressions.
pub struct TypeError {
    pub kind: TypeErrorKind,
    pub message: String,
}

/// The kind of a `TypeError`, carrying the data the error names; offending
/// expressions are carried in rendered form.
pub enum TypeErrorKind {
    UnboundVariable(Ident),
    TypeMismatch(Type, Type, String),
    ArmMismatch(Type, Type),
    NotAFunction(String),
    DuplicateDefinition(Vec<Ident>),
}

/// The views of a sequence of identifiers.
pub open spec fn name_views(names: Seq<Ident>) -> Seq<Seq<char>> {
    names.map_values(|n: Ident| n@)
}

/// Whether an error kind carries exactly the data of an abstract error.
pub open spec fn kind_matches(k: TypeErrorKind, m: ErrorModel) -> bool {
    match (k, m) {
        (TypeErrorKind::UnboundVariable(n), ErrorModel::UnboundVariable(nm)) => n@ == nm,
        (
            TypeErrorKind::TypeMismatch(e1, a1, s),
            ErrorModel::TypeMismatch(e2, a2, off),
        ) => e1 == e2 && a1 == a2 && s@ == expr_text(off),
        (TypeErrorKind::ArmMismatch(t1, t2), ErrorModel::ArmMismatch(u1, u2)) => t1 == u1 && t2
            == u2,
        (TypeErrorKind::NotAFunction(s), ErrorModel::NotAFunction(off)) => s@ == expr_text(off),
        (
            TypeErrorKind::DuplicateDefinition(ns),
            ErrorModel::DuplicateDefinition(nms),
        ) => name_views(ns@) == nms,
        _ => false,
    }
}

/// The names of a group, each preceded by `", "` except the first.
pub open spec fn joined_names(names: Seq<Seq<char>>, i: nat) -> Seq<char>
    decreases names.len() - i,
{
    if i >= names.len() {
        Seq::empty()
    } else if i + 1 == names.len() {
        names[i as int]
    } else {
        names[i as int] + ", "@ + joined_names(names, i + 1)
    }
}

/// The message of an abstract error, embedding canonically rendered types
/// and expressions.
pub open spec fn message_text(m: ErrorModel) -> Seq<char> {
    match m {
        ErrorModel::UnboundVariable(n) => "Unbound variable: "@ + n,
        ErrorModel::TypeMismatch(expected, actual, off) => "Expected "@ + type_text(expected)
            + ", got "@ + type_text(actual) + " in "@ + expr_text(off),
        ErrorModel::ArmMismatch(t1, t2) => "Arms of an if have different types: "@ + type_text(t1)
            + " "@ + type_text(t2),
        ErrorModel::NotAFunction(off) => "Not a function "@ + expr_text(off),
        ErrorModel::DuplicateDefinition(names) => "Duplicate definitions in letrec: "@
            + joined_names(names, 0),
    }
}

/// Whether a produced error carries exactly the kind and the message of an
/// abstract error.
pub open spec fn error_matches(e: TypeError, m: ErrorModel) -> bool {
    kind_matches(e.kind, m) && e.message@ == message_text(m)
}

/// Whether a produced result carries exactly the type or the error of an
/// abstract result.
pub open spec fn result_matches(r: Result<Type, TypeError>, s: Result<Type, ErrorModel>) -> bool {
    match r {
        Ok(t) => s == Ok::<Type, ErrorModel>(t),
        Err(e) => s matches Err(m) && error_matches(e, m),
    }
}

/// The type of a literal: numbers are `Int`, booleans are `Bool`.
pub open spec fn literal_type(l: Literal) -> Type {
    match l {
        Literal::Number(_) => Type::Int,
        Literal::Bool(_) => Type::Bool,
    }
}

/// The declared type of a function, computed from its signature alone.
pub open spec fn fun_type_model(f: Fun) -> Type {
    Type::Arrow(f.arg_type, f.fun_type)
}

/// The names of the functions of a group, in order.
pub open spec fn fun_names(funs: Seq<Fun>) -> Seq<Seq<char>> {
    funs.map_values(|f: Fun| f.name@)
}

/// Whether names are pairwise distinct.
pub open spec fn distinct_names(names: Seq<Seq<char>>) -> bool {
    forall|i: int, j: int| 0 <= i < j < names.len() ==> names[i] != names[j]
}

/// The scope a `letrec` group pushes: every function's name bound to its
/// declared type, bodies not examined.
pub open spec fn letrec_scope(funs: Seq<Fun>) -> Seq<(Seq<char>, Type)> {
    funs.map_values(|f: Fun| (f.name@, fun_type_model(f)))
}

/// The type of an expression in an environment, or the first error the
/// structural recursion encounters.
pub open spec fn spec_check(env: Env, e: Expr) -> Result<Type, ErrorModel>
    decreases e, 0nat,
{
    match e {
        Expr::Var(id) => match env_lookup(env, id@) {
            Some(t) => Ok(t),
            None => Err(ErrorModel::UnboundVariable(id@)),
        },
        Expr::Literal(l) => Ok(literal_type(l)),
        Expr::ArithBinOp(op) => match spec_expect(env, *op.lhs, Type::Int) {
            Err(m) => Err(m),
            Ok(_) => match spec_expect(env, *op.rhs, Type::Int) {
                Err(m) => Err(m),
                Ok(_) => Ok(Type::Int),
            },
        },
        Expr::CmpBinOp(op) => match spec_expect(env, *op.lhs, Type::Int) {
            Err(m) => Err(m),
            Ok(_) => match spec_expect(env, *op.rhs, Type::Int) {
                Err(m) => Err(m),
                Ok(_) => Ok(Type::Bool),
            },
        },
        Expr::If(i) => match spec_expect(env, *i.cond, Type::Bool) {
            Err(m) => Err(m),
            Ok(_) => match spec_check(env, *i.tru) {
                Err(m) => Err(m),
                Ok(t1) => match spec_check(env, *i.fls) {
                    Err(m) => Err(m),
                    Ok(t2) => if t1 == t2 {
                        Ok(t1)
                    } else {
                        Err(ErrorModel::ArmMismatch(t1, t2))
                    },
                },
            },
        },
        Expr::Fun(f) => spec_check_fun(env, f),
        Expr::LetFun(lf) => match spec_check_fun(env, lf.fun) {
            Err(m) => Err(m),
            Ok(ft) => spec_check(env.push(seq![(lf.fun.name@, ft)]), *lf.body),
        },
        Expr::LetRec(lr) => if !distinct_names(fun_names(lr.funs@)) {
            Err(ErrorModel::DuplicateDefinition(fun_names(lr.funs@)))
        } else {
            let env2 = env.push(letrec_scope(lr.funs@));
            match spec_check_funs(env2, lr.funs@, 0) {
                Err(m) => Err(m),
                Ok(_) => spec_check(env2, *lr.body),
            }
        },
        Expr::Apply(a) => match spec_check(env, *a.fun) {
            Err(m) => Err(m),
            Ok(ft) => match ft {
                Type::Arrow(arg, ret) => match spec_expect(env, *a.arg, *arg) {
                    Err(m) => Err(m),
                    Ok(_) => Ok(*ret),
                },
                _ => Err(ErrorModel::NotAFunction(*a.fun)),
            },
        },
    }
}

/// The result of checking `e` against an exact expected type: the expected
/// type on success, a `TypeMismatch` naming `e` otherwise.
pub open spec fn spec_expect(env: Env, e: Expr, expected: Type) -> Result<Type, ErrorModel>
    decreases e, 1nat,
{
    match spec_check(env, e) {
        Ok(t) => if t == expected {
            Ok(expected)
        } else {
            Err(ErrorModel::TypeMismatch(expected, t, e))
        },
        Err(m) => Err(m),
    }
}

/// The result of checking one function: its body, in a scope that binds the
/// argument and the function's own name, must have the annotated return
/// type; the function's declared type is returned.
pub open spec fn spec_check_fun(env: Env, f: Fun) -> Result<Type, ErrorModel>
    decreases f, 2nat,
{
    let own = fun_type_model(f);
    let env2 = env.push(seq![(f.arg_name@, *f.arg_type), (f.name@, own)]);
    match spec_expect(env2, *f.body, *f.fun_type) {
        Ok(_) => Ok(own),
        Err(m) => Err(m),
    }
}

/// The first error among the function bodies of a group from position `i`
/// on, checked in order in the shared scope.
pub open spec fn spec_check_funs(env: Env, funs: Seq<Fun>, i: nat) -> Result<(), ErrorModel>
    decreases funs, funs.len() - i,
{
    if i >= funs.len() {
        Ok(())
    } else {
        match spec_check_fun(env, funs[i as int]) {
            Err(m) => Err(m),
            Ok(_) => spec_check_funs(env, funs, i + 1),
        }
    }
}

fn unbound_error(id: &Ident) -> (e: TypeError)
    ensures
        error_matches(e, ErrorModel::UnboundVariable(id@)),
{
    let mut message = String::from_str("Unbound variable: ");
    message.append(id.as_str());
    TypeError { kind: TypeErrorKind::UnboundVariable(id.clone()), message }
}

fn mismatch_error(expected: Type, actual: Type, offending: &Expr) -> (e: TypeError)
    ensures
        error_matches(e, ErrorModel::TypeMismatch(expected, actual, *offending)),
{
    let rendered = offending.render();
    let message = String::from_str("Expected ").concat(expected.render().as_str()).concat(
        ", got ",
    ).concat(actual.render().as_str()).concat(" in ").concat(rendered.as_str());
    TypeError { kind: TypeErrorKind::TypeMismatch(expected, actual, rendered), message }
}

fn arm_error(t1: Type, t2: Type) -> (e: TypeError)
    ensures
        error_matches(e, ErrorModel::ArmMismatch(t1, t2)),
{
    let message = String::from_str("Arms of an if have different types: ").concat(
        t1.render().as_str(),
    ).concat(" ").concat(t2.render().as_str());
    TypeError { kind: TypeErrorKind::ArmMismatch(t1, t2), message }
}

fn not_function_error(offending: &Expr) -> (e: TypeError)
    ensures
        error_matches(e, ErrorModel::NotAFunction(*offending)),
{
    let rendered = offending.render();
    let message = String::from_str("Not a function ").concat(rendered.as_str());
    TypeError { kind: TypeErrorKind::NotAFunction(rendered), message }
}

fn join_names(names: &Vec<Ident>, i: usize) -> (s: String)
    ensures
        s@ == joined_names(name_views(names@), i as nat),
    decreases names@.len() - i,
{
    if i >= names.len() {
        let s = String::new();
        proof {
            assert(s@ =~= joined_names(name_views(names@), i as nat));
        }
        s
    } else if i + 1 == names.len() {
        names[i].clone()
    } else {
        let rest = join_names(names, i + 1);
        let mut s = names[i].clone();
        s.append(", ");
        s.append(rest.as_str());
        s
    }
}

fn duplicate_error(funs: &Vec<Fun>) -> (e: TypeError)
    ensures
        error_matches(e, ErrorModel::DuplicateDefinition(fun_names(funs@))),
{
    let mut names: Vec<Ident> = Vec::new();
    let mut k: usize = 0;
    while k < funs.len()
        invariant
            k <= funs.len(),
            names@.len() == k,
            forall|p: int| 0 <= p < k ==> names@[p]@ == funs@[p].name@,
        decreases funs.len() - k,
    {
        names.push(funs[k].name.clone());
        k = k + 1;
    }
    proof {
        assert(name_views(names@) =~= fun_names(funs@));
    }
    let joined = join_names(&names, 0);
    let mut message = String::from_str("Duplicate definitions in letrec: ");
    message.append(joined.as_str());
    TypeError { kind: TypeErrorKind::DuplicateDefinition(names), message }
}

/// The declared type of a function, from its signature alone.
pub fn fun_type(f: &Fun) -> (t: Type)
    ensures
        t == fun_type_model(*f),
{
    Type::Arrow(Box::new((*f.arg_type).clone()), Box::new((*f.fun_type).clone()))
}

/// Requires the names of a `letrec` group to be pairwise distinct and
/// computes the scope the group pushes: every name bound to its declared
/// type, from the signatures alone.
pub fn collect_bindings(funs: &Vec<Fun>) -> (r: Result<Vec<(Ident, Type)>, TypeError>)
    ensures
        match r {
            Ok(bs) => distinct_names(fun_names(funs@)) && scope_view(bs@) == letrec_scope(funs@),
            Err(e) => !distinct_names(fun_names(funs@)) && error_matches(
                e,
                ErrorModel::DuplicateDefinition(fun_names(funs@)),
            ),
        },
{
    let n = funs.len();
    let mut i: usize = 0;
    while i < n
        invariant
            n == funs.len(),
            i <= n,
            forall|p: int, q: int|
                0 <= p < q < i ==> fun_names(funs@)[p] != fun_names(funs@)[q],
        decreases n - i,
    {
        let mut j: usize = 0;
        while j < i
            invariant
                n == funs.len(),
                j <= i,
                i < n,
                forall|p: int, q: int|
                    0 <= p < q < i ==> fun_names(funs@)[p] != fun_names(funs@)[q],
                forall|p: int| 0 <= p < j ==> fun_names(funs@)[p] != fun_names(funs@)[i as int],
            decreases i - j,
        {
            if funs[j].name == funs[i].name {
                proof {
                    assert(fun_names(funs@)[j as int] == fun_names(funs@)[i as int]);
                    assert(!distinct_names(fun_names(funs@)));
                }
                return Err(duplicate_error(funs));
            }
            j = j + 1;
        }
        i = i + 1;
    }
    let mut bs: Vec<(Ident, Type)> = Vec::new();
    let mut k: usize = 0;
    while k < n
        invariant
            n == funs.len(),
            k <= n,
            bs@.len() == k,
            forall|p: int| 0 <= p < k ==> scope_view(bs@)[p] == letrec_scope(funs@)[p],
        decreases n - k,
    {
        let f = &funs[k];
        bs.push((f.name.clone(), fun_type(f)));
        k = k + 1;
    }
    proof {
        assert(scope_view(bs@) =~= letrec_scope(funs@));
    }
    Ok(bs)
}

impl Expr {
    /// Checks the expression in `ctx` and returns its type or the first
    /// error; `ctx` is restored on every outcome.
    pub fn check(&self, ctx: &mut TypeContext) -> (r: Result<Type, TypeError>)
        ensures
            final(ctx)@ == old(ctx)@,
            result_matches(r, spec_check(old(ctx)@, *self)),
        decreases *self, 0nat,
    {
        match self {
            Expr::Var(id) => match ctx.lookup(id) {
                Some(t) => Ok(t.clone()),
                None => Err(unbound_error(id)),
            },
            Expr::Literal(l) => Ok(l.check()),
            Expr::ArithBinOp(op) => op.check(ctx),
            Expr::CmpBinOp(op) => op.check(ctx),
            Expr::If(i) => i.check(ctx),
            Expr::Fun(f) => f.check(ctx),
            Expr::LetFun(lf) => lf.check(ctx),
            Expr::LetRec(lr) => lr.check(ctx),
            Expr::Apply(a) => a.check(ctx),
        }
    }
}

impl Literal {
    /// The type of the literal: numbers are `Int`, booleans are `Bool`. No
    /// environment access.
    pub fn check(&self) -> (t: Type)
        ensures
            t == literal_type(*self),
    {
        match self {
            Literal::Number(_) => Type::Int,
            Literal::Bool(_) => Type::Bool,
        }
    }
}

impl BinOp<ArithOp> {
    /// Both operands must check to `Int`; the result is `Int` for all four
    /// operators uniformly, so operator identity does not affect the type.
    pub fn check(&self, ctx: &mut TypeContext) -> (r: Result<Type, TypeError>)
        ensures
            final(ctx)@ == old(ctx)@,
            result_matches(r, spec_check(old(ctx)@, Expr::ArithBinOp(*self))),
        decreases *self, 2nat,
    {
        match expect(&self.lhs, Type::Int, ctx) {
            Err(e) => Err(e),
            Ok(_) => match expect(&self.rhs, Type::Int, ctx) {
                Err(e) => Err(e),
                Ok(_) => Ok(Type::Int),
            },
        }
    }
}

impl BinOp<CmpOp> {
    /// Both operands must check to `Int` for `Eq`, `Lt` and `Gt` alike:
    /// equality is restricted to integers. The result is `Bool`.
    pub fn check(&self, ctx: &mut TypeContext) -> (r: Result<Type, TypeError>)
        ensures
            final(ctx)@ == old(ctx)@,
            result_matches(r, spec_check(old(ctx)@, Expr::CmpBinOp(*self))),
        decreases *self, 2nat,
    {
        match expect(&self.lhs, Type::Int, ctx) {
            Err(e) => Err(e),
            Ok(_) => match expect(&self.rhs, Type::Int, ctx) {
                Err(e) => Err(e),
                Ok(_) => Ok(Type::Bool),
            },
        }
    }
}

impl If {
    /// The condition must check to `Bool`; the two arms must check to equal
    /// types, which is the result.
    pub fn check(&self, ctx: &mut TypeContext) -> (r: Result<Type, TypeError>)
        ensures
            final(ctx)@ == old(ctx)@,
            result_matches(r, spec_check(old(ctx)@, Expr::If(*self))),
        decreases *self, 2nat,
    {
        match expect(&self.cond, Type::Bool, ctx) {
            Err(e) => Err(e),
            Ok(_) => match self.tru.check(ctx) {
                Err(e) => Err(e),
                Ok(t1) => match self.fls.check(ctx) {
                    Err(e) => Err(e),
                    Ok(t2) => if t1 == t2 {
                        Ok(t1)
                    } else {
                        Err(arm_error(t1, t2))
                    },
                },
            },
        }
    }
}

impl LetFun {
    /// Checks the bound function, binds its name to its declared type in a
    /// new scope, and checks the body there; the scope is removed again on
    /// every outcome.
    pub fn check(&self, ctx: &mut TypeContext) -> (r: Result<Type, TypeError>)
        ensures
            final(ctx)@ == old(ctx)@,
            result_matches(r, spec_check(old(ctx)@, Expr::LetFun(*self))),
        decreases *self, 2nat,
    {
        match self.fun.check(ctx) {
            Err(e) => Err(e),
            Ok(ft) => {
                let mut bindings: Vec<(Ident, Type)> = Vec::new();
                bindings.push((self.fun.name.clone(), ft));
                proof {
                    assert(scope_view(bindings@) =~= seq![
                        (self.fun.name@, spec_check_fun(old(ctx)@, self.fun)->Ok_0),
                    ]);
                }
                ctx.push_bindings(bindings);
                let r = self.body.check(ctx);
                ctx.pop_bindings();
                proof {
                    assert(final(ctx)@ =~= old(ctx)@);
                }
                r
            },
        }
    }
}

impl LetRec {
    /// Requires the group's names to be pairwise distinct, pushes every name
    /// bound to its declared type as one shared scope, checks each body and
    /// then the `letrec` body there; the scope is removed again on every
    /// outcome.
    pub fn check(&self, ctx: &mut TypeContext) -> (r: Result<Type, TypeError>)
        ensures
            final(ctx)@ == old(ctx)@,
            result_matches(r, spec_check(old(ctx)@, Expr::LetRec(*self))),
        decreases *self, 2nat,
    {
        match collect_bindings(&self.funs) {
            Err(e) => Err(e),
            Ok(bindings) => {
                ctx.push_bindings(bindings);
                let r = match check_funs(&self.funs, 0, ctx) {
                    Err(e) => Err(e),
                    Ok(_) => self.body.check(ctx),
                };
                ctx.pop_bindings();
                proof {
                    assert(final(ctx)@ =~= old(ctx)@);
                }
                r
            },
        }
    }
}

impl Apply {
    /// The function part must check to an arrow; the argument must check to
    /// exactly the arrow's argument type; the result is the arrow's return
    /// type.
    pub fn check(&self, ctx: &mut TypeContext) -> (r: Result<Type, TypeError>)
        ensures
            final(ctx)@ == old(ctx)@,
            result_matches(r, spec_check(old(ctx)@, Expr::Apply(*self))),
        decreases *self, 2nat,
    {
        match self.fun.check(ctx) {
            Err(e) => Err(e),
            Ok(ft) => match ft {
                Type::Arrow(arg, ret) => match expect(&self.arg, *arg, ctx) {
                    Err(e) => Err(e),
                    Ok(_) => Ok(*ret),
                },
                _ => Err(not_function_error(&self.fun)),
            },
        }
    }
}

/// Checks `expr` and requires its type to equal `expected` exactly; any
/// mismatch fails with `TypeMismatch` naming `expr`.
pub fn expect(expr: &Expr, expected: Type, ctx: &mut TypeContext) -> (r: Result<Type, TypeError>)
    ensures
        final(ctx)@ == old(ctx)@,
        result_matches(r, spec_expect(old(ctx)@, *expr, expected)),
    decreases *expr, 1nat,
{
    match expr.check(ctx) {
        Err(e) => Err(e),
        Ok(t) => if t == expected {
            Ok(expected)
        } else {
            Err(mismatch_error(expected, t, expr))
        },
    }
}

impl Fun {
    /// Checks the function: its body, in a scope that binds the argument and
    /// the function's own name, must have the annotated return type. Returns
    /// the function's declared type; `ctx` is restored on every outcome.
    pub fn check(&self, ctx: &mut TypeContext) -> (r: Result<Type, TypeError>)
        ensures
            final(ctx)@ == old(ctx)@,
            result_matches(r, spec_check_fun(old(ctx)@, *self)),
        decreases *self, 2nat,
    {
        let own = fun_type(self);
        let mut bindings: Vec<(Ident, Type)> = Vec::new();
        bindings.push((self.arg_name.clone(), (*self.arg_type).clone()));
        bindings.push((self.name.clone(), own.clone()));
        proof {
            assert(scope_view(bindings@) =~= seq![
                (self.arg_name@, *self.arg_type),
                (self.name@, fun_type_model(*self)),
            ]);
        }
        ctx.push_bindings(bindings);
        let r = expect(&self.body, (*self.fun_type).clone(), ctx);
        ctx.pop_bindings();
        proof {
            assert(final(ctx)@ =~= old(ctx)@);
        }
        match r {
            Ok(_) => Ok(own),
            Err(e) => Err(e),
        }
    }
}

fn check_funs(funs: &Vec<Fun>, i: usize, ctx: &mut TypeContext) -> (r: Result<(), TypeError>)
    ensures
        final(ctx)@ == old(ctx)@,
        match r {
            Ok(_) => spec_check_funs(old(ctx)@, funs@, i as nat) is Ok,
            Err(e) => spec_check_funs(old(ctx)@, funs@, i as nat) matches Err(m) && error_matches(
                e,
                m,
            ),
        },
    decreases funs@, funs@.len() - i,
{
    if i >= funs.len() {
        Ok(())
    } else {
        let f = &funs[i];
        match f.check(ctx) {
            Err(e) => Err(e),
            Ok(_) => check_funs(funs, i + 1, ctx),
        }
    }
}

/// Checks a closed expression in the empty environment.
pub fn typecheck(expr: &Expr) -> (r: Result<Type, TypeError>)
    ensures
        result_matches(r, spec_check(Seq::empty(), *expr)),
{
    let mut ctx = TypeContext::empty();
    expr.check(&mut ctx)
}

/// A number literal checks to `Int` in every environment.
pub proof fn lemma_number_checks_to_int(env: Env, n: i64)
    ensures
        spec_check(env, Expr::Literal(Literal::Number(n))) == Ok::<Type, ErrorModel>(Type::Int),
{
}

/// A boolean literal checks to `Bool` in every environment.
pub proof fn lemma_bool_checks_to_bool(env: Env, b: bool)
    ensures
        spec_check(env, Expr::Literal(Literal::Bool(b))) == Ok::<Type, ErrorModel>(Type::Bool),
{
}

/// A `letrec` group with a duplicate name fails with `DuplicateDefinition`,
/// naming the whole group, whatever the bodies contain: the names are
/// examined before any body is.
pub proof fn lemma_duplicate_names_rejected(env: Env, lr: LetRec)
    requires
        !distinct_names(fun_names(lr.funs@)),
    ensures
        spec_check(env, Expr::LetRec(lr)) == Err::<Type, ErrorModel>(
            ErrorModel::DuplicateDefinition(fun_names(lr.funs@)),
        ),
{
}


} // verus!

