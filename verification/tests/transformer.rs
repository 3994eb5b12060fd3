use power_assert_plugin::ast::{
    ArrowBody, Callee, CallExpr, ClassMember, Expr, ExprOrSpread, Ident, MemberProp, ModuleItem,
    ObjectProp, Program, Span, Stmt, StrLit, VarKind,
};
use power_assert_plugin::power_assert_recorder::{
    new_power_assert_recorder_stmt, power_assert_recorder_definition, wrap_in_capture,
    wrap_in_record, RecorderContext, CAPTURE_METHOD_NAME, EXPRESSION_WRAPPER_METHOD_NAME,
    RECORDER_CLASS_NAME, RECORDER_INSTANCE_NAME,
};
use power_assert_plugin::power_assert_transformer::{
    insert_recorder, insert_recorder_arrow, CallVisit, PowerAssertTransformerVisitor,
};
use power_assert_plugin::resolve_file_name;

fn ident(name: &str, shell: u64) -> Expr {
    Expr::Ident(Ident { sym: name.to_string(), shell: Some(shell) })
}

fn fresh_ident(name: &str) -> Expr {
    Expr::Ident(Ident { sym: name.to_string(), shell: None })
}

fn fresh_member(obj: Expr, prop: &str) -> Expr {
    Expr::Member { shell: None, obj: Box::new(obj), prop: MemberProp::Ident(prop.to_string()) }
}

fn arg(e: Expr) -> ExprOrSpread {
    ExprOrSpread { spread: None, expr: Box::new(e) }
}

fn fresh_str(value: &str) -> Expr {
    Expr::Str(StrLit { span: Span { lo: 0, hi: 0 }, value: value.to_string(), raw: None })
}

fn recorder_call(method: &str, args: Vec<Expr>) -> Expr {
    Expr::Call(CallExpr {
        shell: None,
        callee: Callee::Expr(Box::new(fresh_member(fresh_ident("_rec"), method))),
        args: args.into_iter().map(arg).collect(),
    })
}

fn call_of(callee: Expr, n_args: u64) -> CallExpr {
    CallExpr {
        shell: Some(99),
        callee: Callee::Expr(Box::new(callee)),
        args: (0..n_args).map(|i| arg(Expr::Opaque(i))).collect(),
    }
}

fn visitor() -> PowerAssertTransformerVisitor {
    PowerAssertTransformerVisitor::new("input/test.js".to_string())
}

#[test]
fn names_of_the_recorder() {
    assert_eq!(RECORDER_CLASS_NAME, "_powerAssertRecorder");
    assert_eq!(RECORDER_INSTANCE_NAME, "_rec");
    assert_eq!(CAPTURE_METHOD_NAME, "_capt");
    assert_eq!(EXPRESSION_WRAPPER_METHOD_NAME, "_expr");
}

#[test]
fn capture_wrapper_shape() {
    let out = wrap_in_capture(ident("a", 1), "arguments/0".to_string());
    assert_eq!(out, recorder_call("_capt", vec![ident("a", 1), fresh_str("arguments/0")]));
}

#[test]
fn record_wrapper_shape() {
    let ctx = RecorderContext { is_async: false, is_generator: false };
    let out = wrap_in_record(Expr::Opaque(3), &"f.js".to_string(), &"assert(a)".to_string(), 7, ctx);
    let info = Expr::Object(vec![
        ObjectProp::KeyValue("content".to_string(), Box::new(fresh_str("assert(a)"))),
        ObjectProp::KeyValue("filepath".to_string(), Box::new(fresh_str("f.js"))),
        ObjectProp::KeyValue("line".to_string(), Box::new(Expr::Num(7))),
    ]);
    assert_eq!(out, recorder_call("_expr", vec![Expr::Opaque(3), info]));
}

#[test]
fn record_wrapper_marks_async_generators() {
    let ctx = RecorderContext { is_async: true, is_generator: true };
    let out = wrap_in_record(Expr::Opaque(3), &"f.js".to_string(), &"x".to_string(), 0, ctx);
    let info = Expr::Object(vec![
        ObjectProp::KeyValue("content".to_string(), Box::new(fresh_str("x"))),
        ObjectProp::KeyValue("filepath".to_string(), Box::new(fresh_str("f.js"))),
        ObjectProp::KeyValue("line".to_string(), Box::new(Expr::Num(0))),
        ObjectProp::KeyValue("async".to_string(), Box::new(Expr::Bool(true))),
        ObjectProp::KeyValue("generator".to_string(), Box::new(Expr::Bool(true))),
    ]);
    assert_eq!(out, recorder_call("_expr", vec![Expr::Opaque(3), info]));
}

#[test]
fn recorder_instance_statement() {
    let expected = Stmt::Var {
        kind: VarKind::Var,
        name: "_rec".to_string(),
        init: Some(Box::new(Expr::New {
            shell: None,
            callee: Box::new(fresh_ident("_powerAssertRecorder")),
            args: Some(vec![]),
        })),
    };
    assert_eq!(new_power_assert_recorder_stmt(), expected);
}

#[test]
fn power_assert_recorder() {
    let class = match power_assert_recorder_definition() {
        Stmt::Class(c) => c,
        other => panic!("not a class: {:?}", other),
    };
    assert_eq!(class.name, "_powerAssertRecorder");
    assert_eq!(class.members.len(), 3);
    match &class.members[0] {
        ClassMember::Prop { key, value } => {
            assert_eq!(key, "captured");
            assert_eq!(value.as_deref(), Some(&Expr::Array { shell: None, elems: vec![] }));
        }
        other => panic!("{:?}", other),
    }
    let this_captured = fresh_member(Expr::This, "captured");
    match &class.members[1] {
        ClassMember::Method { key, params, body } => {
            assert_eq!(key, "_capt");
            assert_eq!(params, &vec!["value".to_string(), "espath".to_string()]);
            let push = Expr::Call(CallExpr {
                shell: None,
                callee: Callee::Expr(Box::new(fresh_member(fresh_member(Expr::This, "captured"), "push"))),
                args: vec![arg(Expr::Object(vec![
                    ObjectProp::Shorthand("value".to_string()),
                    ObjectProp::Shorthand("espath".to_string()),
                ]))],
            });
            assert_eq!(
                body,
                &vec![Stmt::Expr(Box::new(push)), Stmt::Return(Some(Box::new(fresh_ident("value"))))]
            );
        }
        other => panic!("{:?}", other),
    }
    match &class.members[2] {
        ClassMember::Method { key, params, body } => {
            assert_eq!(key, "_expr");
            assert_eq!(params, &vec!["value".to_string(), "source".to_string()]);
            assert_eq!(body.len(), 3);
            assert_eq!(
                body[0],
                Stmt::Var {
                    kind: VarKind::Const,
                    name: "capturedValues".to_string(),
                    init: Some(Box::new(this_captured)),
                }
            );
            let ret = Expr::Object(vec![
                ObjectProp::KeyValue(
                    "powerAssertContext".to_string(),
                    Box::new(Expr::Object(vec![
                        ObjectProp::Shorthand("value".to_string()),
                        ObjectProp::KeyValue("events".to_string(), Box::new(fresh_ident("capturedValues"))),
                    ])),
                ),
                ObjectProp::Shorthand("source".to_string()),
            ]);
            assert_eq!(body[2], Stmt::Return(Some(Box::new(ret))));
        }
        other => panic!("{:?}", other),
    }
}

#[test]
fn recorder_calls_name_methods_of_the_class() {
    let class = match power_assert_recorder_definition() {
        Stmt::Class(c) => c,
        _ => unreachable!(),
    };
    let methods: Vec<(String, usize)> = class
        .members
        .iter()
        .filter_map(|m| match m {
            ClassMember::Method { key, params, .. } => Some((key.clone(), params.len())),
            _ => None,
        })
        .collect();
    for e in [
        wrap_in_capture(Expr::Opaque(1), "p".to_string()),
        wrap_in_record(Expr::Opaque(1), &"f".to_string(), &"s".to_string(), 1, RecorderContext::default()),
    ] {
        match e {
            Expr::Call(CallExpr { callee: Callee::Expr(f), args, .. }) => match *f {
                Expr::Member { obj, prop: MemberProp::Ident(m), .. } => {
                    assert_eq!(*obj, fresh_ident(RECORDER_INSTANCE_NAME));
                    assert!(methods.contains(&(m, args.len())));
                }
                other => panic!("{:?}", other),
            },
            other => panic!("{:?}", other),
        }
    }
}

#[test]
fn classify_calls() {
    let v = visitor();
    assert_eq!(v.visit_mut_call_expr(&call_of(ident("assert", 1), 1)), CallVisit::TransformArgument);
    assert_eq!(v.visit_mut_call_expr(&call_of(ident("assert", 1), 2)), CallVisit::Skip);
    assert_eq!(v.visit_mut_call_expr(&call_of(ident("assert", 1), 0)), CallVisit::Skip);
    assert_eq!(v.visit_mut_call_expr(&call_of(ident("notAssert", 1), 1)), CallVisit::VisitChildren);
    let assert_equal = Expr::Member {
        shell: Some(2),
        obj: Box::new(ident("assert", 1)),
        prop: MemberProp::Ident("equal".to_string()),
    };
    assert_eq!(v.visit_mut_call_expr(&call_of(assert_equal, 1)), CallVisit::VisitChildren);
    assert!(v.is_assertion_call(&call_of(ident("assert", 1), 3)));
    let super_call = CallExpr { shell: Some(1), callee: Callee::Other(2), args: vec![] };
    assert!(!v.is_assertion_call(&super_call));
    assert_eq!(v.visit_mut_call_expr(&super_call), CallVisit::VisitChildren);
}

#[test]
fn boring_assert() {
    // assert(true): nothing captured, nothing recorded, no recorder needed.
    let mut v = visitor();
    let mut node = Expr::Opaque(5);
    let r = v.transform_assert_call(&mut node, None, None);
    assert_eq!(r, Ok(()));
    assert_eq!(node, Expr::Opaque(5));
    assert!(!v.found_assertion);
    assert!(!v.needs_recorder);
}

#[test]
fn top_level_assert() {
    let mut v = visitor();
    let mut node = ident("a", 1);
    let r = v.transform_assert_call(&mut node, Some("assert(a)".to_string()), Some(vec![2, 3]));
    assert_eq!(r, Ok(()));
    let info = Expr::Object(vec![
        ObjectProp::KeyValue("content".to_string(), Box::new(fresh_str("assert(a)"))),
        ObjectProp::KeyValue("filepath".to_string(), Box::new(fresh_str("input/test.js"))),
        // the first line index is 2, counted from 0: the record counts from 1
        ObjectProp::KeyValue("line".to_string(), Box::new(Expr::Num(3))),
    ]);
    let captured = recorder_call("_capt", vec![ident("a", 1), fresh_str("arguments/0")]);
    assert_eq!(node, recorder_call("_expr", vec![captured, info]));
    assert!(v.found_assertion);
    assert!(v.needs_recorder);
}

#[test]
fn missing_source_code_is_an_error() {
    let mut v = visitor();
    let mut node = ident("a", 1);
    let r = v.transform_assert_call(&mut node, None, Some(vec![1]));
    assert_eq!(r, Err("Failed to get source_code for expr".to_string()));
    assert_eq!(node, Expr::Invalid);
}

#[test]
fn missing_lines_are_an_error() {
    let mut v = visitor();
    let mut node = ident("a", 1);
    let r = v.transform_assert_call(&mut node, Some("assert(a)".to_string()), None);
    assert_eq!(r, Err("Failed to get line for expr".to_string()));
    assert_eq!(node, Expr::Invalid);
    let mut node = ident("a", 1);
    let r = v.transform_assert_call(&mut node, Some("assert(a)".to_string()), Some(vec![]));
    assert_eq!(r, Err("Failed to get line for expr: empty lines list".to_string()));
    assert_eq!(node, Expr::Invalid);
}

#[test]
fn boring_assert_after_a_captured_one_is_untouched() {
    // assert(true) stays as it is, also in a scope that already needs a recorder.
    let mut v = visitor();
    let mut first = ident("a", 1);
    v.transform_assert_call(&mut first, Some("assert(a)".to_string()), Some(vec![0])).unwrap();
    let mut second = Expr::Opaque(9);
    let r = v.transform_assert_call(&mut second, Some("assert(true)".to_string()), Some(vec![1]));
    assert_eq!(r, Ok(()));
    assert_eq!(second, Expr::Opaque(9));
    assert!(v.needs_recorder);
    assert!(v.found_assertion);
}

#[test]
fn boring_assert_ignores_a_failing_source_map() {
    let mut v = visitor();
    let mut first = ident("a", 1);
    v.transform_assert_call(&mut first, Some("assert(a)".to_string()), Some(vec![0])).unwrap();
    let mut second = Expr::Bool(true);
    assert_eq!(v.transform_assert_call(&mut second, None, None), Ok(()));
    assert_eq!(second, Expr::Bool(true));
}

#[test]
fn first_step_leaves_a_boring_argument() {
    let mut v = visitor();
    v.needs_recorder = true;
    v.found_assertion = true;
    let mut node = Expr::Num(1);
    assert_eq!(v.capture_assert_argument(&mut node), None);
    assert_eq!(node, Expr::Num(1));
    assert!(v.needs_recorder);
}

#[test]
fn line_numbers_count_from_one() {
    let mut v = visitor();
    let mut node = ident("a", 1);
    v.transform_assert_call(&mut node, Some("assert(a)".to_string()), Some(vec![0])).unwrap();
    match node {
        Expr::Call(CallExpr { args, .. }) => match &*args[1].expr {
            Expr::Object(props) => assert_eq!(
                props[2],
                ObjectProp::KeyValue("line".to_string(), Box::new(Expr::Num(1)))
            ),
            other => panic!("{:?}", other),
        },
        other => panic!("{:?}", other),
    }
}

#[test]
fn two_step_transform_matches_whole() {
    let mut v = visitor();
    let mut node = ident("a", 1);
    let captured = v.capture_assert_argument(&mut node).expect("needs a record");
    assert_eq!(node, Expr::Invalid);
    v.record_assert_call(&mut node, captured, Some("assert(a)".to_string()), Some(vec![4])).unwrap();
    let mut w = visitor();
    let mut whole = ident("a", 1);
    w.transform_assert_call(&mut whole, Some("assert(a)".to_string()), Some(vec![4])).unwrap();
    assert_eq!(node, whole);
}

#[test]
fn scopes_restore_the_visitor() {
    let mut v = visitor();
    let inner = RecorderContext { is_async: true, is_generator: false };
    let saved = v.enter_scope(inner);
    assert_eq!(v.recorder_context, inner);
    let mut node = ident("a", 1);
    v.transform_assert_call(&mut node, Some("assert(a)".to_string()), Some(vec![0])).unwrap();
    assert!(v.exit_scope(saved));
    assert!(!v.needs_recorder);
    assert_eq!(v.recorder_context, RecorderContext::default());
    assert!(v.found_assertion);
    // A scope with nothing in it needs no recorder.
    let saved = v.enter_scope(RecorderContext::default());
    assert!(!v.exit_scope(saved));
}

#[test]
fn insert_recorder_into_bodies() {
    let mut body = Some(vec![Stmt::Opaque(1)]);
    insert_recorder(&mut body, new_power_assert_recorder_stmt());
    assert_eq!(body, Some(vec![new_power_assert_recorder_stmt(), Stmt::Opaque(1)]));
    let mut none: Option<Vec<Stmt>> = None;
    insert_recorder(&mut none, new_power_assert_recorder_stmt());
    assert_eq!(none, None);
}

#[test]
fn insert_recorder_into_arrow_shorthand() {
    let mut body = ArrowBody::Expr(Box::new(Expr::Opaque(3)));
    insert_recorder_arrow(&mut body, new_power_assert_recorder_stmt());
    assert_eq!(
        body,
        ArrowBody::Block(vec![new_power_assert_recorder_stmt(), Stmt::Return(Some(Box::new(Expr::Opaque(3))))])
    );
    let mut block = ArrowBody::Block(vec![Stmt::Opaque(4)]);
    insert_recorder_arrow(&mut block, new_power_assert_recorder_stmt());
    assert_eq!(block, ArrowBody::Block(vec![new_power_assert_recorder_stmt(), Stmt::Opaque(4)]));
}

#[test]
fn program_without_assertions_is_untouched() {
    let v = visitor();
    let mut p = Program::Module(vec![ModuleItem::Decl(1), ModuleItem::Stmt(Stmt::Opaque(2))]);
    v.visit_mut_program(&mut p);
    assert_eq!(p, Program::Module(vec![ModuleItem::Decl(1), ModuleItem::Stmt(Stmt::Opaque(2))]));
}

#[test]
fn recorder_goes_after_imports() {
    let mut v = visitor();
    let mut node = ident("a", 1);
    v.transform_assert_call(&mut node, Some("assert(a)".to_string()), Some(vec![0])).unwrap();
    let mut p = Program::Module(vec![
        ModuleItem::Import(1),
        ModuleItem::Import(2),
        ModuleItem::Stmt(Stmt::Opaque(3)),
        ModuleItem::Decl(4),
    ]);
    v.visit_mut_program(&mut p);
    assert_eq!(
        p,
        Program::Module(vec![
            ModuleItem::Import(1),
            ModuleItem::Import(2),
            ModuleItem::Stmt(power_assert_recorder_definition()),
            ModuleItem::Stmt(new_power_assert_recorder_stmt()),
            ModuleItem::Stmt(Stmt::Opaque(3)),
            ModuleItem::Decl(4),
        ])
    );
}

#[test]
fn recorder_goes_before_exports() {
    // `import assert from 'assert'; export function f() { assert(a) } export const y = f();`
    let mut v = visitor();
    v.found_assertion = true;
    let mut p = Program::Module(vec![ModuleItem::Import(1), ModuleItem::Decl(2), ModuleItem::Decl(3)]);
    v.visit_mut_program(&mut p);
    assert_eq!(
        p,
        Program::Module(vec![
            ModuleItem::Import(1),
            ModuleItem::Stmt(power_assert_recorder_definition()),
            ModuleItem::Decl(2),
            ModuleItem::Decl(3),
        ])
    );
}

#[test]
fn recorder_in_module_of_imports_goes_after_them() {
    let mut v = visitor();
    v.found_assertion = true;
    v.needs_recorder = true;
    let mut q = Program::Module(vec![ModuleItem::Import(1)]);
    v.visit_mut_program(&mut q);
    assert_eq!(
        q,
        Program::Module(vec![
            ModuleItem::Import(1),
            ModuleItem::Stmt(power_assert_recorder_definition()),
            ModuleItem::Stmt(new_power_assert_recorder_stmt()),
        ])
    );
    let mut e = Program::Module(vec![ModuleItem::Stmt(Stmt::Opaque(1)), ModuleItem::Import(2)]);
    v.visit_mut_program(&mut e);
    assert_eq!(
        e,
        Program::Module(vec![
            ModuleItem::Stmt(power_assert_recorder_definition()),
            ModuleItem::Stmt(new_power_assert_recorder_stmt()),
            ModuleItem::Stmt(Stmt::Opaque(1)),
            ModuleItem::Import(2),
        ])
    );
}

#[test]
fn recorder_in_script_without_top_level_asserts() {
    let mut v = visitor();
    v.found_assertion = true;
    v.needs_recorder = false;
    let mut p = Program::Script(vec![Stmt::Opaque(1)]);
    v.visit_mut_program(&mut p);
    assert_eq!(p, Program::Script(vec![power_assert_recorder_definition(), Stmt::Opaque(1)]));
}

#[test]
fn file_name_defaults_to_source() {
    assert_eq!(resolve_file_name(None), "<source>");
    assert_eq!(resolve_file_name(Some("a/b.js".to_string())), "a/b.js");
}

#[test]
fn inner_scope_inherits_the_need_for_a_recorder() {
    // A function visited after a captured top-level assertion gets a recorder of its own.
    let mut v = visitor();
    let mut node = ident("a", 1);
    v.transform_assert_call(&mut node, Some("assert(a)".to_string()), Some(vec![0])).unwrap();
    let saved = v.enter_scope(RecorderContext::default());
    assert!(v.exit_scope(saved));
    assert!(v.needs_recorder);
}
