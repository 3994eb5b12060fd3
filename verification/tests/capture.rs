use power_assert_plugin::ast::{
    Callee, CallExpr, Expr, ExprOrSpread, Ident, MemberProp, ObjectProp, Span, StrLit,
};
use power_assert_plugin::flatten_member_exprs::flatten_member_exprs;
use power_assert_plugin::power_assert_transformer::capture_expr::CaptureExprContext;
use power_assert_plugin::power_assert_transformer::PowerAssertTransformerVisitor;

fn ident(name: &str, shell: u64) -> Expr {
    Expr::Ident(Ident { sym: name.to_string(), shell: Some(shell) })
}

fn fresh_ident(name: &str) -> Expr {
    Expr::Ident(Ident { sym: name.to_string(), shell: None })
}

fn member(obj: Expr, prop: &str, shell: u64) -> Expr {
    Expr::Member { shell: Some(shell), obj: Box::new(obj), prop: MemberProp::Ident(prop.to_string()) }
}

fn fresh_member(obj: Expr, prop: &str) -> Expr {
    Expr::Member { shell: None, obj: Box::new(obj), prop: MemberProp::Ident(prop.to_string()) }
}

fn arg(e: Expr) -> ExprOrSpread {
    ExprOrSpread { spread: None, expr: Box::new(e) }
}

fn call(callee: Expr, args: Vec<Expr>, shell: u64) -> Expr {
    Expr::Call(CallExpr {
        shell: Some(shell),
        callee: Callee::Expr(Box::new(callee)),
        args: args.into_iter().map(arg).collect(),
    })
}

fn fresh_str(value: &str) -> Expr {
    Expr::Str(StrLit { span: Span { lo: 0, hi: 0 }, value: value.to_string(), raw: None })
}

/// `_rec._capt(e, "path")`
fn capt(e: Expr, path: &str) -> Expr {
    Expr::Call(CallExpr {
        shell: None,
        callee: Callee::Expr(Box::new(fresh_member(fresh_ident("_rec"), "_capt"))),
        args: vec![arg(e), arg(fresh_str(path))],
    })
}

fn visitor() -> PowerAssertTransformerVisitor {
    PowerAssertTransformerVisitor::new("input/test.js".to_string())
}

fn root() -> Vec<String> {
    vec!["arguments/0".to_string()]
}

#[test]
fn flatten_plain_identifier() {
    assert_eq!(flatten_member_exprs(&ident("assert", 1)), Some("assert".to_string()));
}

#[test]
fn flatten_member_chain() {
    let e = member(member(ident("a", 1), "b", 2), "c", 3);
    assert_eq!(flatten_member_exprs(&e), Some("a.b.c".to_string()));
    let e = member(ident("assert", 1), "equal", 2);
    assert_eq!(flatten_member_exprs(&e), Some("assert.equal".to_string()));
}

#[test]
fn flatten_computed_member_is_none() {
    let e = Expr::Member { shell: Some(2), obj: Box::new(ident("a", 1)), prop: MemberProp::Other(7) };
    assert_eq!(flatten_member_exprs(&e), None);
    let e = member(call(ident("f", 1), vec![], 2), "x", 3);
    assert_eq!(flatten_member_exprs(&e), None);
}

#[test]
fn capture_identifier() {
    let mut v = visitor();
    let out = v.capture_expr(ident("a", 1), root(), None);
    assert_eq!(out, capt(ident("a", 1), "arguments/0"));
    assert!(v.found_assertion);
    assert!(v.needs_recorder);
}

#[test]
fn capture_binary_expression() {
    let mut v = visitor();
    let e = Expr::Bin { shell: 5, left: Box::new(ident("x", 1)), right: Box::new(Expr::Opaque(2)) };
    let out = v.capture_expr(e, root(), None);
    let expected = capt(
        Expr::Bin {
            shell: 5,
            left: Box::new(capt(ident("x", 1), "arguments/0/left")),
            right: Box::new(Expr::Opaque(2)),
        },
        "arguments/0",
    );
    assert_eq!(out, expected);
}

#[test]
fn capture_call_skips_callee_but_not_its_parts() {
    // x.toUpperCase()
    let mut v = visitor();
    let e = call(member(ident("x", 1), "toUpperCase", 2), vec![], 3);
    let out = v.capture_expr(e, root(), None);
    let expected = capt(
        call(
            member(capt(ident("x", 1), "arguments/0/callee/object"), "toUpperCase", 2),
            vec![],
            3,
        ),
        "arguments/0",
    );
    assert_eq!(out, expected);
}

#[test]
fn capture_call_arguments_are_numbered() {
    let mut v = visitor();
    let args: Vec<Expr> = (0..12).map(|i| ident("a", i)).collect();
    let e = call(ident("f", 100), args, 101);
    let out = v.capture_expr(e, root(), None);
    let expected_args: Vec<Expr> = (0..12)
        .map(|i| capt(ident("a", i), &format!("arguments/0/arguments/{i}")))
        .collect();
    assert_eq!(out, capt(call(ident("f", 100), expected_args, 101), "arguments/0"));
}

#[test]
fn capture_conditional_is_looked_through() {
    let mut v = visitor();
    let e = Expr::Cond {
        shell: 9,
        test: Box::new(ident("t", 1)),
        cons: Box::new(ident("c", 2)),
        alt: Box::new(ident("a", 3)),
    };
    let out = v.capture_expr(e, root(), None);
    let expected = Expr::Cond {
        shell: 9,
        test: Box::new(capt(ident("t", 1), "arguments/0/test")),
        cons: Box::new(capt(ident("c", 2), "arguments/0/consequent")),
        alt: Box::new(capt(ident("a", 3), "arguments/0/alternate")),
    };
    assert_eq!(out, expected);
}

#[test]
fn capture_sequence_and_parens() {
    let mut v = visitor();
    let e = Expr::Paren {
        shell: 4,
        expr: Box::new(Expr::Sequence { shell: 3, exprs: vec![ident("x", 1), ident("y", 2)] }),
    };
    let out = v.capture_expr(e, root(), None);
    let expected = Expr::Paren {
        shell: 4,
        expr: Box::new(Expr::Sequence {
            shell: 3,
            exprs: vec![
                capt(ident("x", 1), "arguments/0/expressions/0"),
                capt(ident("y", 2), "arguments/0/expressions/1"),
            ],
        }),
    };
    assert_eq!(out, expected);
}

#[test]
fn capture_array_with_hole() {
    let mut v = visitor();
    let e = Expr::Array { shell: Some(8), elems: vec![Some(arg(ident("x", 1))), None, Some(arg(Expr::Opaque(2)))] };
    let out = v.capture_expr(e, root(), None);
    let expected = capt(
        Expr::Array {
            shell: Some(8),
            elems: vec![Some(arg(capt(ident("x", 1), "arguments/0/elements/0"))), None, Some(arg(Expr::Opaque(2)))],
        },
        "arguments/0",
    );
    assert_eq!(out, expected);
}

#[test]
fn capture_new_expression() {
    // new x.y() instanceof SomeThing, the new part
    let mut v = visitor();
    let e = Expr::New {
        shell: Some(7),
        callee: Box::new(member(ident("x", 1), "y", 2)),
        args: Some(vec![arg(ident("z", 3))]),
    };
    let out = v.capture_expr(e, root(), None);
    let expected = capt(
        Expr::New {
            shell: Some(7),
            callee: Box::new(member(capt(ident("x", 1), "arguments/0/callee/object"), "y", 2)),
            args: Some(vec![arg(capt(ident("z", 3), "arguments/0/arguments/0"))]),
        },
        "arguments/0",
    );
    assert_eq!(out, expected);
}

#[test]
fn capture_assignment_only_right_side() {
    let mut v = visitor();
    let e = Expr::Assign {
        target: power_assert_plugin::ast::AssignTarget::Kept(1),
        right: Box::new(member(ident("y", 2), "z", 3)),
    };
    let out = v.capture_expr(e, root(), None);
    let expected = capt(
        Expr::Assign {
            target: power_assert_plugin::ast::AssignTarget::Kept(1),
            right: Box::new(capt(member(capt(ident("y", 2), "arguments/0/right/object"), "z", 3), "arguments/0/right")),
        },
        "arguments/0",
    );
    assert_eq!(out, expected);
}

#[test]
fn capture_inside_callee_is_not_wrapped() {
    let mut v = visitor();
    let out = v.capture_expr(ident("f", 1), root(), Some(CaptureExprContext::InsideCallee));
    assert_eq!(out, ident("f", 1));
    assert!(!v.found_assertion);
    assert!(!v.needs_recorder);
}

#[test]
fn capture_literal_is_untouched() {
    let mut v = visitor();
    let lit = Expr::Opaque(42);
    let out = v.capture_expr(lit, root(), None);
    assert_eq!(out, Expr::Opaque(42));
    assert!(!v.found_assertion);
    assert!(!v.needs_recorder);
}

#[test]
fn capture_nothing_is_identity_on_nested_values() {
    // A conditional of literals: nothing worth capturing, nothing changes.
    let mut v = visitor();
    let e = Expr::Cond {
        shell: 1,
        test: Box::new(Expr::Opaque(2)),
        cons: Box::new(Expr::Paren { shell: 3, expr: Box::new(Expr::Opaque(4)) }),
        alt: Box::new(Expr::Sequence { shell: 5, exprs: vec![Expr::Opaque(6)] }),
    };
    let copy = Expr::Cond {
        shell: 1,
        test: Box::new(Expr::Opaque(2)),
        cons: Box::new(Expr::Paren { shell: 3, expr: Box::new(Expr::Opaque(4)) }),
        alt: Box::new(Expr::Sequence { shell: 5, exprs: vec![Expr::Opaque(6)] }),
    };
    assert_eq!(v.capture_expr(e, root(), None), copy);
    assert!(!v.needs_recorder);
}

#[test]
fn object_literals_are_not_looked_into() {
    let mut v = visitor();
    let e = Expr::Object(vec![ObjectProp::Shorthand("x".to_string())]);
    let out = v.capture_expr(e, root(), None);
    assert_eq!(out, Expr::Object(vec![ObjectProp::Shorthand("x".to_string())]));
}

#[test]
fn capture_unary_operand_is_argument() {
    // `!a`: the operand is found under `argument`, as in the standard syntax tree.
    let mut v = visitor();
    let e = Expr::Unary { shell: 1, arg: Box::new(ident("a", 2)) };
    let out = v.capture_expr(e, root(), None);
    let expected = capt(
        Expr::Unary { shell: 1, arg: Box::new(capt(ident("a", 2), "arguments/0/argument")) },
        "arguments/0",
    );
    assert_eq!(out, expected);
}

/// `f(a.b, !c) + [d, , ...e]`, as a parser gives it.
fn sample() -> Expr {
    let array = Expr::Array {
        shell: Some(20),
        elems: vec![
            Some(arg(ident("d", 21))),
            None,
            Some(ExprOrSpread { spread: Some(Span { lo: 5, hi: 8 }), expr: Box::new(ident("e", 22)) }),
        ],
    };
    let f = call(
        ident("f", 10),
        vec![member(ident("a", 11), "b", 12), Expr::Unary { shell: 13, arg: Box::new(ident("c", 14)) }],
        15,
    );
    Expr::Bin { shell: 30, left: Box::new(f), right: Box::new(array) }
}

fn is_capture(e: &Expr) -> bool {
    match e {
        Expr::Call(CallExpr { shell: None, callee: Callee::Expr(f), args }) => {
            **f == fresh_member(fresh_ident("_rec"), "_capt")
                && args.len() == 2
                && matches!(&*args[1].expr, Expr::Str(_))
        }
        _ => false,
    }
}

/// `e` with every capture replaced by the value it captures.
fn erase(e: Expr) -> Expr {
    if is_capture(&e) {
        if let Expr::Call(CallExpr { mut args, .. }) = e {
            let first = args.remove(0);
            return erase(*first.expr);
        }
        unreachable!()
    }
    let erase_arg = |a: ExprOrSpread| ExprOrSpread { spread: a.spread, expr: Box::new(erase(*a.expr)) };
    match e {
        Expr::Call(CallExpr { shell, callee, args }) => Expr::Call(CallExpr {
            shell,
            callee: match callee {
                Callee::Expr(f) => Callee::Expr(Box::new(erase(*f))),
                other => other,
            },
            args: args.into_iter().map(erase_arg).collect(),
        }),
        Expr::Array { shell, elems } => {
            Expr::Array { shell, elems: elems.into_iter().map(|o| o.map(erase_arg)).collect() }
        }
        Expr::Unary { shell, arg } => Expr::Unary { shell, arg: Box::new(erase(*arg)) },
        Expr::Bin { shell, left, right } => {
            Expr::Bin { shell, left: Box::new(erase(*left)), right: Box::new(erase(*right)) }
        }
        Expr::Member { shell, obj, prop } => Expr::Member { shell, obj: Box::new(erase(*obj)), prop },
        other => other,
    }
}

fn count_captures(e: &Expr) -> usize {
    let here = if is_capture(e) { 1 } else { 0 };
    let inner = match e {
        Expr::Call(CallExpr { callee, args, .. }) => {
            let c = match callee {
                Callee::Expr(f) => count_captures(f),
                _ => 0,
            };
            c + args.iter().map(|a| count_captures(&a.expr)).sum::<usize>()
        }
        Expr::Array { elems, .. } => elems.iter().flatten().map(|a| count_captures(&a.expr)).sum(),
        Expr::Unary { arg, .. } => count_captures(arg),
        Expr::Bin { left, right, .. } => count_captures(left) + count_captures(right),
        Expr::Member { obj, .. } => count_captures(obj),
        _ => 0,
    };
    here + inner
}

#[test]
fn capturing_only_wraps() {
    let mut v = visitor();
    let out = v.capture_expr(sample(), root(), None);
    assert_ne!(out, sample());
    assert_eq!(erase(out), sample());
}

#[test]
fn flags_rise_exactly_when_a_capture_is_added() {
    let mut v = visitor();
    let out = v.capture_expr(sample(), root(), None);
    // the sum, the call, `a.b` and `a`, `!c` and `c`, the array, `d` and `e`
    assert_eq!(count_captures(&out), 9);
    assert!(v.found_assertion && v.needs_recorder);
    let mut w = visitor();
    let lit = Expr::Array { shell: Some(1), elems: vec![] };
    let out = w.capture_expr(lit, root(), Some(CaptureExprContext::InsideCallee));
    assert_eq!(count_captures(&out), 0);
    assert!(!w.found_assertion && !w.needs_recorder);
}

fn capture_paths(e: &Expr, out: &mut Vec<String>) {
    if is_capture(e) {
        if let Expr::Call(CallExpr { args, .. }) = e {
            if let Expr::Str(s) = &*args[1].expr {
                out.push(s.value.clone());
            }
        }
    }
    match e {
        Expr::Call(CallExpr { callee, args, .. }) => {
            if let Callee::Expr(f) = callee {
                capture_paths(f, out);
            }
            for a in args {
                capture_paths(&a.expr, out);
            }
        }
        Expr::Array { elems, .. } => {
            for a in elems.iter().flatten() {
                capture_paths(&a.expr, out);
            }
        }
        Expr::Unary { arg, .. } => capture_paths(arg, out),
        Expr::Bin { left, right, .. } => {
            capture_paths(left, out);
            capture_paths(right, out);
        }
        Expr::Member { obj, .. } => capture_paths(obj, out),
        _ => {}
    }
}

#[test]
fn capture_paths_are_distinct() {
    // `f(a0, a1, ..., a10)`: `arguments/1` and `arguments/10` are different places.
    let mut v = visitor();
    let args: Vec<Expr> = (0..11).map(|i| ident(&format!("a{}", i), 100 + i)).collect();
    let e = call(ident("f", 1), args, 2);
    let out = v.capture_expr(e, root(), None);
    let mut paths = Vec::new();
    capture_paths(&out, &mut paths);
    assert_eq!(paths.len(), 12);
    assert_eq!(paths[0], "arguments/0");
    assert_eq!(paths[2], "arguments/0/arguments/1");
    assert_eq!(paths[11], "arguments/0/arguments/10");
    let mut sorted = paths.clone();
    sorted.sort();
    sorted.dedup();
    assert_eq!(sorted.len(), paths.len());
    let mut w = visitor();
    let mut more = Vec::new();
    capture_paths(&w.capture_expr(sample(), root(), None), &mut more);
    let mut sorted = more.clone();
    sorted.sort();
    sorted.dedup();
    assert_eq!(sorted.len(), more.len());
    assert!(more.iter().all(|p| p == "arguments/0" || p.starts_with("arguments/0/")));
}
