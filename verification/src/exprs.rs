//! The expression tree that the checker consumes, and its textual rendering,
//! which error messages embed.

use vstd::prelude::*;

use crate::text::{int_string, int_text};
use crate::types::{type_text, Type};

verus! {

/// An identifier of the checked language.
pub type Ident = String;

/// An expression of the checked language.
pub enum Expr {
    Var(Ident),
    Literal(Literal),
    ArithBinOp(ArithBinOp),
    CmpBinOp(CmpBinOp),
    If(If),
    Fun(Fun),
    LetFun(LetFun),
    LetRec(LetRec),
    Apply(Apply),
}

/// A binary operator application; `T` is the operator kind.
pub struct BinOp<T> {
    pub kind: T,
    pub lhs: Box<Expr>,
    pub rhs: Box<Expr>,
}

/// An arithmetic operator.
pub enum ArithOp {
    Mul,
    Div,
    Add,
    Sub,
}

/// A comparison operator.
pub enum CmpOp {
    Eq,
    Lt,
    Gt,
}

pub type ArithBinOp = BinOp<ArithOp>;

pub type CmpBinOp = BinOp<CmpOp>;

/// A conditional with a condition, a then arm and an else arm.
pub struct If {
    pub cond: Box<Expr>,
    pub tru: Box<Expr>,
    pub fls: Box<Expr>,
}

/// A function with an explicit argument annotation and return annotation.
/// Its own name is visible inside its body, which permits self-recursion.
pub struct Fun {
    pub name: Ident,
    pub arg_name: Ident,
    pub arg_type: Box<Type>,
    pub fun_type: Box<Type>,
    pub body: Box<Expr>,
}

/// A single function binding whose name is visible in `body`.
pub struct LetFun {
    pub fun: Fun,
    pub body: Box<Expr>,
}

/// A group of mutually recursive function bindings, all visible to each
/// other's bodies and to `body`.
pub struct LetRec {
    pub funs: Vec<Fun>,
    pub body: Box<Expr>,
}

/// An application of a function expression to an argument expression.
pub struct Apply {
    pub fun: Box<Expr>,
    pub arg: Box<Expr>,
}

/// A literal value.
pub enum Literal {
    Number(i64),
    Bool(bool),
}

/// The character of an arithmetic operator as it appears in rendered
/// expressions.
pub open spec fn arith_op_text(op: ArithOp) -> Seq<char> {
    match op {
        ArithOp::Mul => "*"@,
        ArithOp::Div => "\\"@,
        ArithOp::Add => "+"@,
        ArithOp::Sub => "-"@,
    }
}

/// The text of a comparison operator as it appears in rendered expressions.
pub open spec fn cmp_op_text(op: CmpOp) -> Seq<char> {
    match op {
        CmpOp::Eq => "=="@,
        CmpOp::Lt => "<"@,
        CmpOp::Gt => ">"@,
    }
}

/// The text of a literal: the decimal value of a number, `true` or `false`
/// for a boolean.
pub open spec fn literal_text(l: Literal) -> Seq<char> {
    match l {
        Literal::Number(x) => int_text(x as int),
        Literal::Bool(b) => if b {
            "true"@
        } else {
            "false"@
        },
    }
}

/// The canonical text of an expression, in the parenthesized prefix form
/// that error messages embed.
pub open spec fn expr_text(e: Expr) -> Seq<char>
    decreases e, 0nat,
{
    match e {
        Expr::Var(id) => id@,
        Expr::Literal(l) => literal_text(l),
        Expr::ArithBinOp(op) => "("@ + arith_op_text(op.kind) + " "@ + expr_text(*op.lhs) + " "@
            + expr_text(*op.rhs) + ")"@,
        Expr::CmpBinOp(op) => "("@ + cmp_op_text(op.kind) + " "@ + expr_text(*op.lhs) + " "@
            + expr_text(*op.rhs) + ")"@,
        Expr::If(i) => "(if "@ + expr_text(*i.cond) + " "@ + expr_text(*i.tru) + " "@ + expr_text(
            *i.fls,
        ) + ")"@,
        Expr::Fun(f) => fun_text(f),
        Expr::LetFun(lf) => "(let "@ + fun_text(lf.fun) + " "@ + expr_text(*lf.body) + ")"@,
        Expr::LetRec(lr) => "(letrec"@ + funs_text(lr.funs@, 0) + " "@ + expr_text(*lr.body)
            + ")"@,
        Expr::Apply(a) => "("@ + expr_text(*a.fun) + " "@ + expr_text(*a.arg) + ")"@,
    }
}

/// The canonical text of one function: its name, annotated argument,
/// return annotation and body.
pub open spec fn fun_text(f: Fun) -> Seq<char>
    decreases f, 0nat,
{
    "(fun "@ + f.name@ + " ("@ + f.arg_name@ + ": "@ + type_text(*f.arg_type) + "): "@ + type_text(
        *f.fun_type,
    ) + " "@ + expr_text(*f.body) + ")"@
}

/// The text of the functions of a group from position `i` on, each preceded
/// by one space.
pub open spec fn funs_text(funs: Seq<Fun>, i: nat) -> Seq<char>
    decreases funs, funs.len() - i,
{
    if i >= funs.len() {
        Seq::empty()
    } else {
        " "@ + fun_text(funs[i as int]) + funs_text(funs, i + 1)
    }
}

fn arith_op_str(op: &ArithOp) -> (s: &'static str)
    ensures
        s@ == arith_op_text(*op),
{
    match op {
        ArithOp::Mul => "*",
        ArithOp::Div => "\\",
        ArithOp::Add => "+",
        ArithOp::Sub => "-",
    }
}

fn cmp_op_str(op: &CmpOp) -> (s: &'static str)
    ensures
        s@ == cmp_op_text(*op),
{
    match op {
        CmpOp::Eq => "==",
        CmpOp::Lt => "<",
        CmpOp::Gt => ">",
    }
}

impl Literal {
    /// Renders the literal as it appears in error messages.
    pub fn render(&self) -> (s: String)
        ensures
            s@ == literal_text(*self),
    {
        match self {
            Literal::Number(x) => int_string(*x),
            Literal::Bool(b) => if *b {
                String::from_str("true")
            } else {
                String::from_str("false")
            },
        }
    }
}

impl Expr {
    /// Renders the expression in the canonical form that error messages
    /// embed.
    pub fn render(&self) -> (s: String)
        ensures
            s@ == expr_text(*self),
        decreases *self, 0nat,
    {
        match self {
            Expr::Var(id) => id.clone(),
            Expr::Literal(l) => l.render(),
            Expr::ArithBinOp(op) => {
                let l = op.lhs.render();
                let r = op.rhs.render();
                String::from_str("(").concat(arith_op_str(&op.kind)).concat(" ").concat(
                    l.as_str(),
                ).concat(" ").concat(r.as_str()).concat(")")
            },
            Expr::CmpBinOp(op) => {
                let l = op.lhs.render();
                let r = op.rhs.render();
                String::from_str("(").concat(cmp_op_str(&op.kind)).concat(" ").concat(
                    l.as_str(),
                ).concat(" ").concat(r.as_str()).concat(")")
            },
            Expr::If(i) => {
                let c = i.cond.render();
                let t = i.tru.render();
                let f = i.fls.render();
                String::from_str("(if ").concat(c.as_str()).concat(" ").concat(t.as_str()).concat(
                    " ",
                ).concat(f.as_str()).concat(")")
            },
            Expr::Fun(f) => f.render(),
            Expr::LetFun(lf) => {
                let f = lf.fun.render();
                let b = lf.body.render();
                String::from_str("(let ").concat(f.as_str()).concat(" ").concat(b.as_str()).concat(
                    ")",
                )
            },
            Expr::LetRec(lr) => {
                let fs = render_funs(&lr.funs, 0);
                let b = lr.body.render();
                String::from_str("(letrec").concat(fs.as_str()).concat(" ").concat(
                    b.as_str(),
                ).concat(")")
            },
            Expr::Apply(a) => {
                let f = a.fun.render();
                let x = a.arg.render();
                String::from_str("(").concat(f.as_str()).concat(" ").concat(x.as_str()).concat(")")
            },
        }
    }
}

impl Fun {
    /// Renders the function binding in the canonical form that error
    /// messages embed.
    pub fn render(&self) -> (s: String)
        ensures
            s@ == fun_text(*self),
        decreases *self, 0nat,
    {
        let at = self.arg_type.render();
        let rt = self.fun_type.render();
        let b = self.body.render();
        String::from_str("(fun ").concat(self.name.as_str()).concat(" (").concat(
            self.arg_name.as_str(),
        ).concat(": ").concat(at.as_str()).concat("): ").concat(rt.as_str()).concat(" ").concat(
            b.as_str(),
        ).concat(")")
    }
}

fn render_funs(funs: &Vec<Fun>, i: usize) -> (s: String)
    ensures
        s@ == funs_text(funs@, i as nat),
    decreases funs@, funs@.len() - i,
{
    if i >= funs.len() {
        let s = String::new();
        proof {
            assert(s@ =~= funs_text(funs@, i as nat));
        }
        s
    } else {
        let f = &funs[i];
        let rest = render_funs(funs, i + 1);
        let mut s = String::from_str(" ");
        s.append(f.render().as_str());
        s.append(rest.as_str());
        s
    }
}

} // verus!
