use power_assert_plugin::assert_import_replacer::ReplaceImportsVisitor;
use power_assert_plugin::ast::{Callee, CallExpr, Expr, ExprOrSpread, Ident, ImportDecl, Span, StrLit};

fn source(value: &str) -> StrLit {
    StrLit { span: Span { lo: 10, hi: 18 }, value: value.to_string(), raw: Some(format!("\"{value}\"")) }
}

fn call(callee: &str, first: Expr, spread: Option<Span>) -> CallExpr {
    CallExpr {
        shell: Some(1),
        callee: Callee::Expr(Box::new(Expr::Ident(Ident { sym: callee.to_string(), shell: Some(2) }))),
        args: vec![ExprOrSpread { spread, expr: Box::new(first) }],
    }
}

#[test]
fn import_replace_test() {
    let mut v = ReplaceImportsVisitor;
    let mut decl = ImportDecl { src: source("assert") };
    v.visit_mut_import_decl(&mut decl);
    assert_eq!(
        decl.src,
        StrLit { span: Span { lo: 10, hi: 18 }, value: "power-assert".to_string(), raw: None }
    );

    let mut other = ImportDecl { src: source("otherThing") };
    v.visit_mut_import_decl(&mut other);
    assert_eq!(other.src, source("otherThing"));

    let mut req = call("require", Expr::Str(source("assert")), None);
    v.visit_mut_call_expr(&mut req);
    assert_eq!(
        req,
        call(
            "require",
            Expr::Str(StrLit { span: Span { lo: 10, hi: 18 }, value: "power-assert".to_string(), raw: None }),
            None
        )
    );

    let mut other_req = call("require", Expr::Str(source("otherThing")), None);
    v.visit_mut_call_expr(&mut other_req);
    assert_eq!(other_req, call("require", Expr::Str(source("otherThing")), None));
}

#[test]
fn only_require_is_rewritten() {
    let mut v = ReplaceImportsVisitor;
    let mut c = call("load", Expr::Str(source("assert")), None);
    v.visit_mut_call_expr(&mut c);
    assert_eq!(c, call("load", Expr::Str(source("assert")), None));

    let mut not_literal = call("require", Expr::Opaque(5), None);
    v.visit_mut_call_expr(&mut not_literal);
    assert_eq!(not_literal, call("require", Expr::Opaque(5), None));

    let mut no_args = CallExpr { shell: None, callee: Callee::Other(3), args: vec![] };
    v.visit_mut_call_expr(&mut no_args);
    assert_eq!(no_args, CallExpr { shell: None, callee: Callee::Other(3), args: vec![] });
}

#[test]
fn spread_argument_keeps_its_spread() {
    let mut v = ReplaceImportsVisitor;
    let dots = Some(Span { lo: 8, hi: 11 });
    let mut c = call("require", Expr::Str(source("assert")), dots);
    v.visit_mut_call_expr(&mut c);
    assert_eq!(
        c,
        call(
            "require",
            Expr::Str(StrLit { span: Span { lo: 10, hi: 18 }, value: "power-assert".to_string(), raw: None }),
            dots
        )
    );
}

#[test]
fn replacing_twice_is_replacing_once() {
    let mut v = ReplaceImportsVisitor;
    let mut decl = ImportDecl { src: source("assert") };
    v.visit_mut_import_decl(&mut decl);
    let once = decl.src.clone();
    v.visit_mut_import_decl(&mut decl);
    assert_eq!(decl.src, once);
    assert_ne!(decl.src.value, "assert");
}
