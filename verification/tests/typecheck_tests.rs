use typelang::exprs::{Apply, ArithOp, BinOp, CmpOp, Expr, Fun, If, LetFun, LetRec, Literal};
use typelang::typecheck::{typecheck, TypeErrorKind};
use typelang::types::Type;

fn num(n: i64) -> Expr {
    Expr::Literal(Literal::Number(n))
}

fn boolean(b: bool) -> Expr {
    Expr::Literal(Literal::Bool(b))
}

fn var(s: &str) -> Expr {
    Expr::Var(String::from(s))
}

fn arith(kind: ArithOp, lhs: Expr, rhs: Expr) -> Expr {
    Expr::ArithBinOp(BinOp { kind, lhs: Box::new(lhs), rhs: Box::new(rhs) })
}

fn cmp(kind: CmpOp, lhs: Expr, rhs: Expr) -> Expr {
    Expr::CmpBinOp(BinOp { kind, lhs: Box::new(lhs), rhs: Box::new(rhs) })
}

fn if_expr(cond: Expr, tru: Expr, fls: Expr) -> Expr {
    Expr::If(If { cond: Box::new(cond), tru: Box::new(tru), fls: Box::new(fls) })
}

fn fun(name: &str, arg: &str, arg_type: Type, ret_type: Type, body: Expr) -> Fun {
    Fun {
        name: String::from(name),
        arg_name: String::from(arg),
        arg_type: Box::new(arg_type),
        fun_type: Box::new(ret_type),
        body: Box::new(body),
    }
}

fn let_fun(f: Fun, body: Expr) -> Expr {
    Expr::LetFun(LetFun { fun: f, body: Box::new(body) })
}

fn let_rec(funs: Vec<Fun>, body: Expr) -> Expr {
    Expr::LetRec(LetRec { funs, body: Box::new(body) })
}

fn apply(f: Expr, arg: Expr) -> Expr {
    Expr::Apply(Apply { fun: Box::new(f), arg: Box::new(arg) })
}

fn assert_valid(expr: &Expr, expected: Type) {
    match typecheck(expr) {
        Ok(t) => assert!(t == expected, "wrong type for {}", expr.render()),
        Err(e) => panic!("failed to typecheck {}: {}", expr.render(), e.message),
    }
}

fn assert_fails(expr: &Expr) {
    assert!(
        typecheck(expr).is_err(),
        "this expression should not typecheck: {}",
        expr.render()
    );
}

fn check_err(expr: &Expr) -> typelang::typecheck::TypeError {
    match typecheck(expr) {
        Ok(_) => panic!("this expression should not typecheck: {}", expr.render()),
        Err(e) => e,
    }
}

#[test]
fn test_assoc() {
    let foo = Type::arrow(Type::Int, Type::arrow(Type::Bool, Type::Int));
    assert_eq!(foo.render(), "int -> bool -> int");

    let foo = Type::arrow(Type::arrow(Type::Int, Type::Bool), Type::Int);
    assert_eq!(foo.render(), "(int -> bool) -> int");
}

#[test]
fn test_arithmetics() {
    assert_valid(&num(92), Type::Int);
    assert_valid(&boolean(true), Type::Bool);

    assert_valid(&arith(ArithOp::Add, num(1), num(1)), Type::Int);
    assert_fails(&arith(ArithOp::Mul, num(1), boolean(true)));
}

#[test]
fn test_bools() {
    assert_valid(&cmp(CmpOp::Lt, num(1), num(1)), Type::Bool);
    assert_fails(&cmp(CmpOp::Eq, boolean(true), boolean(true)));
    assert_fails(&cmp(CmpOp::Gt, boolean(false), num(92)));
}

#[test]
fn test_if() {
    assert_valid(
        &if_expr(cmp(CmpOp::Lt, num(1), num(2)), num(92), num(62)),
        Type::Int,
    );
    assert_valid(
        &if_expr(boolean(true), boolean(false), boolean(true)),
        Type::Bool,
    );
    assert_fails(&if_expr(
        arith(ArithOp::Add, num(1), cmp(CmpOp::Eq, num(1), num(2))),
        num(92),
        num(62),
    ));
    assert_fails(&if_expr(num(1), num(92), num(62)));
    assert_fails(&if_expr(boolean(true), num(92), boolean(false)));
}

#[test]
fn test_fun() {
    let id = fun("id", "x", Type::Int, Type::Int, var("x"));
    assert_valid(&Expr::Fun(id), Type::Int.maps_to(Type::Int));

    let id_rec = fun("id", "x", Type::Int, Type::Int, apply(var("id"), var("x")));
    assert_valid(&Expr::Fun(id_rec), Type::Int.maps_to(Type::Int));

    let id = fun("id", "x", Type::Int, Type::Int, var("x"));
    assert_valid(&apply(Expr::Fun(id), num(92)), Type::Int);

    assert_fails(&Expr::Fun(fun("id", "x", Type::Int, Type::Int, var("y"))));

    let id = fun("id", "x", Type::Int, Type::Int, var("x"));
    assert_fails(&apply(Expr::Fun(id), boolean(true)));
}

#[test]
fn test_let_fun() {
    let inc = fun(
        "inc",
        "x",
        Type::Int,
        Type::Int,
        arith(ArithOp::Add, var("x"), num(1)),
    );
    assert_valid(&let_fun(inc, apply(var("inc"), num(92))), Type::Int);

    let inc = fun(
        "inc",
        "x",
        Type::Int,
        Type::Int,
        arith(ArithOp::Add, var("x"), num(1)),
    );
    assert_fails(&let_fun(inc, apply(var("inc"), var("inc"))));
}

#[test]
fn test_let_rec() {
    let a = fun(
        "a",
        "x",
        Type::Int,
        Type::Int,
        apply(var("b"), apply(var("a"), apply(var("b"), num(1)))),
    );
    let b = fun(
        "b",
        "x",
        Type::Int,
        Type::Int,
        apply(var("a"), apply(var("b"), apply(var("a"), num(1)))),
    );
    assert_valid(
        &let_rec(
            vec![a, b],
            apply(var("a"), apply(var("a"), apply(var("b"), apply(var("b"), num(1))))),
        ),
        Type::Int,
    );
}

#[test]
fn test_literal_types() {
    assert_valid(&num(0), Type::Int);
    assert_valid(&num(-1), Type::Int);
    assert_valid(&num(i64::MAX), Type::Int);
    assert_valid(&num(i64::MIN), Type::Int);
    assert_valid(&boolean(false), Type::Bool);
}

#[test]
fn test_unbound_variable_error() {
    let e = check_err(&var("y"));
    assert!(matches!(&e.kind, TypeErrorKind::UnboundVariable(n) if n == "y"));
    assert_eq!(e.message, "Unbound variable: y");
}

#[test]
fn test_type_mismatch_error() {
    let e = check_err(&arith(ArithOp::Mul, num(1), boolean(true)));
    match &e.kind {
        TypeErrorKind::TypeMismatch(expected, actual, offending) => {
            assert!(*expected == Type::Int);
            assert!(*actual == Type::Bool);
            assert_eq!(offending, "true");
        }
        _ => panic!("expected a TypeMismatch, got: {}", e.message),
    }
    assert_eq!(e.message, "Expected int, got bool in true");
}

#[test]
fn test_arm_mismatch_error() {
    let e = check_err(&if_expr(boolean(true), num(92), boolean(false)));
    match &e.kind {
        TypeErrorKind::ArmMismatch(t1, t2) => {
            assert!(*t1 == Type::Int);
            assert!(*t2 == Type::Bool);
        }
        _ => panic!("expected an ArmMismatch, got: {}", e.message),
    }
    assert_eq!(e.message, "Arms of an if have different types: int bool");
}

#[test]
fn test_not_a_function_error() {
    let e = check_err(&apply(num(92), num(1)));
    assert!(matches!(&e.kind, TypeErrorKind::NotAFunction(s) if s == "92"));
    assert_eq!(e.message, "Not a function 92");
}

#[test]
fn test_duplicate_definition_error() {
    let first = fun("a", "x", Type::Int, Type::Int, var("x"));
    let second = fun("a", "x", Type::Int, Type::Int, var("x"));
    let e = check_err(&let_rec(vec![first, second], num(1)));
    match &e.kind {
        TypeErrorKind::DuplicateDefinition(names) => {
            assert_eq!(names.len(), 2);
            assert_eq!(names[0], "a");
            assert_eq!(names[1], "a");
        }
        _ => panic!("expected a DuplicateDefinition, got: {}", e.message),
    }
    assert_eq!(e.message, "Duplicate definitions in letrec: a, a");
}

#[test]
fn test_negative_number_rendering() {
    let e = check_err(&apply(num(-5), num(1)));
    assert_eq!(e.message, "Not a function -5");

    let e = check_err(&apply(num(i64::MIN), num(1)));
    assert_eq!(e.message, "Not a function -9223372036854775808");
}

#[test]
fn test_arrow_types_in_messages() {
    let id = fun("id", "x", Type::Int, Type::Int, var("x"));
    let e = check_err(&if_expr(boolean(true), Expr::Fun(id), num(92)));
    assert_eq!(e.message, "Arms of an if have different types: int -> int int");
}

#[test]
fn test_expr_rendering() {
    assert_eq!(arith(ArithOp::Add, num(1), num(2)).render(), "(+ 1 2)");
    assert_eq!(arith(ArithOp::Div, num(4), num(2)).render(), "(\\ 4 2)");
    assert_eq!(cmp(CmpOp::Eq, num(1), num(2)).render(), "(== 1 2)");
    assert_eq!(if_expr(boolean(true), num(1), num(2)).render(), "(if true 1 2)");
    assert_eq!(apply(var("f"), num(3)).render(), "(f 3)");
    let id = fun("id", "x", Type::Int, Type::Int, var("x"));
    assert_eq!(Expr::Fun(id).render(), "(fun id (x: int): int x)");
}

#[test]
fn test_shadowing() {
    let inner = fun("g", "x", Type::Bool, Type::Bool, var("x"));
    let outer = fun(
        "f",
        "x",
        Type::Int,
        Type::Bool,
        apply(Expr::Fun(inner), cmp(CmpOp::Lt, var("x"), num(1))),
    );
    assert_valid(&Expr::Fun(outer), Type::Int.maps_to(Type::Bool));
}

#[test]
fn test_environment_restoration() {
    let inc = fun(
        "inc",
        "x",
        Type::Int,
        Type::Int,
        arith(ArithOp::Add, var("x"), num(1)),
    );
    let e = check_err(&arith(
        ArithOp::Add,
        let_fun(inc, apply(var("inc"), num(92))),
        var("inc"),
    ));
    assert!(matches!(&e.kind, TypeErrorKind::UnboundVariable(n) if n == "inc"));

    let id = fun("id", "x", Type::Int, Type::Int, var("x"));
    let e = check_err(&arith(
        ArithOp::Add,
        apply(Expr::Fun(id), num(1)),
        var("x"),
    ));
    assert!(matches!(&e.kind, TypeErrorKind::UnboundVariable(n) if n == "x"));

    let single = fun("a", "x", Type::Int, Type::Int, apply(var("a"), var("x")));
    let e = check_err(&arith(
        ArithOp::Add,
        let_rec(vec![single], apply(var("a"), num(1))),
        var("a"),
    ));
    assert!(matches!(&e.kind, TypeErrorKind::UnboundVariable(n) if n == "a"));
}
