//! The recorder that transformed code talks to: the class that is injected
//! into a file, the statement that makes an instance of it, and the calls of
//! its two methods that wrap captured values and whole assertions.
use vstd::prelude::*;

use crate::ast::{
    AssignTarget, AssignTargetV, Callee, CalleeV, CallExpr, CallExprV, ClassDecl, ClassDeclV,
    ClassMember, ClassMemberV, Expr, ExprOrSpread, ExprOrSpreadV, ExprV, Ident, IdentV, MemberProp,
    MemberPropV, ObjectProp, ObjectPropV, Span, Stmt, StmtV, StrLit, StrLitV, VarKind,
};

verus! {

/// The name of the injected recorder class.
pub const RECORDER_CLASS_NAME: &'static str = "_powerAssertRecorder";

/// The name of the variable that holds a recorder instance.
pub const RECORDER_INSTANCE_NAME: &'static str = "_rec";

/// The recorder method that records the value of one sub-expression.
pub const CAPTURE_METHOD_NAME: &'static str = "_capt";

/// The recorder method that wraps a whole asserted expression.
pub const EXPRESSION_WRAPPER_METHOD_NAME: &'static str = "_expr";

/// Whether the code around an assertion runs as an async function, a generator, or both.
#[derive(Clone, Copy, Debug, PartialEq, Eq)]
pub struct RecorderContext {
    pub is_async: bool,
    pub is_generator: bool,
}

impl Default for RecorderContext {
    fn default() -> (r: Self)
        ensures
            !r.is_async,
            !r.is_generator,
    {
        RecorderContext { is_async: false, is_generator: false }
    }
}

// ---------------------------------------------------------------------------
// What the built nodes are
// ---------------------------------------------------------------------------

/// The span of a node built here.
pub open spec fn no_span() -> Span {
    Span { lo: 0, hi: 0 }
}

/// An identifier built here.
pub open spec fn ident_v(name: Seq<char>) -> ExprV {
    ExprV::Ident(IdentV { sym: name, shell: None })
}

/// A string literal built here.
pub open spec fn str_v(value: Seq<char>) -> ExprV {
    ExprV::Str(StrLitV { span: no_span(), value, raw: None })
}

/// `obj.prop`, built here.
pub open spec fn member_v(obj: ExprV, prop: Seq<char>) -> ExprV {
    ExprV::Member { shell: None, obj: Box::new(obj), prop: MemberPropV::Ident(prop) }
}

/// An argument that is not spread.
pub open spec fn arg_v(e: ExprV) -> ExprOrSpreadV {
    ExprOrSpreadV { spread: None, expr: Box::new(e) }
}

/// `callee(args..)`, built here.
pub open spec fn call_v(callee: ExprV, args: Seq<ExprOrSpreadV>) -> ExprV {
    ExprV::Call(CallExprV { shell: None, callee: CalleeV::Expr(Box::new(callee)), args })
}

/// `_rec.method(args..)`
pub open spec fn recorder_call(method: Seq<char>, args: Seq<ExprOrSpreadV>) -> ExprV {
    call_v(member_v(ident_v(RECORDER_INSTANCE_NAME@), method), args)
}

/// `_rec._capt(e, "path")`: records the value of `e` under the path `path`.
pub open spec fn capture_call(e: ExprV, path: Seq<char>) -> ExprV {
    recorder_call(CAPTURE_METHOD_NAME@, seq![arg_v(e), arg_v(str_v(path))])
}

/// The properties that describe where an assertion stands.
pub open spec fn source_info(
    file_name: Seq<char>,
    source_code: Seq<char>,
    line: nat,
    ctx: RecorderContext,
) -> Seq<ObjectPropV> {
    let base = seq![
        ObjectPropV::KeyValue("content"@, Box::new(str_v(source_code))),
        ObjectPropV::KeyValue("filepath"@, Box::new(str_v(file_name))),
        ObjectPropV::KeyValue("line"@, Box::new(ExprV::Num(line))),
    ];
    let with_async = if ctx.is_async {
        base.push(ObjectPropV::KeyValue("async"@, Box::new(ExprV::Bool(true))))
    } else {
        base
    };
    if ctx.is_generator {
        with_async.push(ObjectPropV::KeyValue("generator"@, Box::new(ExprV::Bool(true))))
    } else {
        with_async
    }
}

/// `_rec._expr(e, { content, filepath, line, async?, generator? })`
pub open spec fn record_call(
    e: ExprV,
    file_name: Seq<char>,
    source_code: Seq<char>,
    line: nat,
    ctx: RecorderContext,
) -> ExprV {
    recorder_call(
        EXPRESSION_WRAPPER_METHOD_NAME@,
        seq![arg_v(e), arg_v(ExprV::Object(source_info(file_name, source_code, line, ctx)))],
    )
}

/// `var _rec = new _powerAssertRecorder();`
pub open spec fn recorder_instance_stmt() -> StmtV {
    StmtV::Var {
        kind: VarKind::Var,
        name: RECORDER_INSTANCE_NAME@,
        init: Some(
            ExprV::New {
                shell: None,
                callee: Box::new(ident_v(RECORDER_CLASS_NAME@)),
                args: Some(Seq::empty()),
            },
        ),
    }
}

/// `this.captured`
pub open spec fn this_captured() -> ExprV {
    member_v(ExprV::This, "captured"@)
}

/// `[]`
pub open spec fn empty_array() -> ExprV {
    ExprV::Array { shell: None, elems: Seq::empty() }
}

/// `_capt(value, espath) { this.captured.push({ value, espath }); return value; }`
pub open spec fn capture_method() -> ClassMemberV {
    ClassMemberV::Method {
        key: CAPTURE_METHOD_NAME@,
        params: seq!["value"@, "espath"@],
        body: seq![
            StmtV::Expr(
                call_v(
                    member_v(this_captured(), "push"@),
                    seq![
                        arg_v(
                            ExprV::Object(
                                seq![
                                    ObjectPropV::Shorthand("value"@),
                                    ObjectPropV::Shorthand("espath"@),
                                ],
                            ),
                        ),
                    ],
                ),
            ),
            StmtV::Return(Some(ident_v("value"@))),
        ],
    }
}

/// `_expr(value, source) { const capturedValues = this.captured; this.captured = [];
/// return { powerAssertContext: { value, events: capturedValues }, source }; }`
pub open spec fn expression_method() -> ClassMemberV {
    ClassMemberV::Method {
        key: EXPRESSION_WRAPPER_METHOD_NAME@,
        params: seq!["value"@, "source"@],
        body: seq![
            StmtV::Var { kind: VarKind::Const, name: "capturedValues"@, init: Some(this_captured()) },
            StmtV::Expr(
                ExprV::Assign {
                    target: AssignTargetV::Member { obj: Box::new(ExprV::This), prop: "captured"@ },
                    right: Box::new(empty_array()),
                },
            ),
            StmtV::Return(
                Some(
                    ExprV::Object(
                        seq![
                            ObjectPropV::KeyValue(
                                "powerAssertContext"@,
                                Box::new(
                                    ExprV::Object(
                                        seq![
                                            ObjectPropV::Shorthand("value"@),
                                            ObjectPropV::KeyValue(
                                                "events"@,
                                                Box::new(ident_v("capturedValues"@)),
                                            ),
                                        ],
                                    ),
                                ),
                            ),
                            ObjectPropV::Shorthand("source"@),
                        ],
                    ),
                ),
            ),
        ],
    }
}

/// `class _powerAssertRecorder { captured = []; _capt(..) {..} _expr(..) {..} }`
pub open spec fn recorder_class() -> ClassDeclV {
    ClassDeclV {
        name: RECORDER_CLASS_NAME@,
        members: seq![
            ClassMemberV::Prop { key: "captured"@, value: Some(empty_array()) },
            capture_method(),
            expression_method(),
        ],
    }
}

// ---------------------------------------------------------------------------
// Builders
// ---------------------------------------------------------------------------

fn ident(name: &str) -> (e: Expr)
    ensures
        e@ == ident_v(name@),
{
    Expr::Ident(Ident { sym: String::from_str(name), shell: None })
}

fn str_lit(value: String) -> (e: Expr)
    ensures
        e@ == str_v(value@),
{
    Expr::Str(StrLit { span: Span { lo: 0, hi: 0 }, value, raw: None })
}

fn member(obj: Expr, prop: &str) -> (e: Expr)
    ensures
        e@ == member_v(obj@, prop@),
{
    Expr::Member { shell: None, obj: Box::new(obj), prop: MemberProp::Ident(String::from_str(prop)) }
}

fn arg(e: Expr) -> (a: ExprOrSpread)
    ensures
        a@ == arg_v(e@),
{
    ExprOrSpread { spread: None, expr: Box::new(e) }
}

fn call1(callee: Expr, a: Expr) -> (e: Expr)
    ensures
        e@ == call_v(callee@, seq![arg_v(a@)]),
{
    let mut args: Vec<ExprOrSpread> = Vec::new();
    args.push(arg(a));
    let c = CallExpr { shell: None, callee: Callee::Expr(Box::new(callee)), args };
    assert(c@.args =~= seq![arg_v(a@)]);
    Expr::Call(c)
}

fn call2(callee: Expr, a: Expr, b: Expr) -> (e: Expr)
    ensures
        e@ == call_v(callee@, seq![arg_v(a@), arg_v(b@)]),
{
    let mut args: Vec<ExprOrSpread> = Vec::new();
    args.push(arg(a));
    args.push(arg(b));
    let c = CallExpr { shell: None, callee: Callee::Expr(Box::new(callee)), args };
    assert(c@.args =~= seq![arg_v(a@), arg_v(b@)]);
    Expr::Call(c)
}

fn empty_array_expr() -> (e: Expr)
    ensures
        e@ == empty_array(),
{
    let e = Expr::Array { shell: None, elems: Vec::new() };
    proof {
        if let ExprV::Array { elems, .. } = e@ {
            assert(elems =~= Seq::<Option<ExprOrSpreadV>>::empty());
        }
    }
    e
}

fn object(props: Vec<ObjectProp>) -> (e: Expr)
    ensures
        e@ == ExprV::Object(
            Seq::new(
                props@.len(),
                |i: int|
                    match props@[i] {
                        ObjectProp::Shorthand(s) => ObjectPropV::Shorthand(s@),
                        ObjectProp::KeyValue(k, v) => ObjectPropV::KeyValue(k@, Box::new(v@)),
                    },
            ),
        ),
{
    let e = Expr::Object(props);
    proof {
        if let ExprV::Object(ps) = e@ {
            assert(ps =~= Seq::new(
                props@.len(),
                |i: int|
                    match props@[i] {
                        ObjectProp::Shorthand(s) => ObjectPropV::Shorthand(s@),
                        ObjectProp::KeyValue(k, v) => ObjectPropV::KeyValue(k@, Box::new(v@)),
                    },
            ));
        }
    }
    e
}

fn shorthand(name: &str) -> (p: ObjectProp)
    ensures
        p matches ObjectProp::Shorthand(s) && s@ == name@,
{
    ObjectProp::Shorthand(String::from_str(name))
}

fn key_value(key: &str, value: Expr) -> (p: ObjectProp)
    ensures
        p matches ObjectProp::KeyValue(k, v) && k@ == key@ && v@ == value@,
{
    ObjectProp::KeyValue(String::from_str(key), Box::new(value))
}

fn recorder_method_call(method: &str, a: Expr, b: Expr) -> (e: Expr)
    ensures
        e@ == recorder_call(method@, seq![arg_v(a@), arg_v(b@)]),
{
    call2(member(ident(RECORDER_INSTANCE_NAME), method), a, b)
}

// ---------------------------------------------------------------------------
// The public builders
// ---------------------------------------------------------------------------

/// Wraps `expr` so that its value is recorded under `path` when it is evaluated.
pub fn wrap_in_capture(expr: Expr, path: String) -> (e: Expr)
    ensures
        e@ == capture_call(expr@, path@),
{
    recorder_method_call(CAPTURE_METHOD_NAME, expr, str_lit(path))
}

/// Wraps a whole asserted expression, with where the assertion stands in the source.
pub fn wrap_in_record(
    expr: Expr,
    file_name: &String,
    source_code: &String,
    line_num: u128,
    ctx: RecorderContext,
) -> (e: Expr)
    ensures
        e@ == record_call(expr@, file_name@, source_code@, line_num as nat, ctx),
{
    let mut props: Vec<ObjectProp> = Vec::new();
    props.push(key_value("content", str_lit(source_code.clone())));
    props.push(key_value("filepath", str_lit(file_name.clone())));
    props.push(key_value("line", Expr::Num(line_num)));
    if ctx.is_async {
        props.push(key_value("async", Expr::Bool(true)));
    }
    if ctx.is_generator {
        props.push(key_value("generator", Expr::Bool(true)));
    }
    let info = object(props);
    proof {
        if let ExprV::Object(ps) = info@ {
            assert(ps =~= source_info(file_name@, source_code@, line_num as nat, ctx));
        }
    }
    recorder_method_call(EXPRESSION_WRAPPER_METHOD_NAME, expr, info)
}

/// `var _rec = new _powerAssertRecorder();`, the statement that makes a recorder for one scope.
pub fn new_power_assert_recorder_stmt() -> (s: Stmt)
    ensures
        s@ == recorder_instance_stmt(),
{
    let new_expr = Expr::New {
        shell: None,
        callee: Box::new(ident(RECORDER_CLASS_NAME)),
        args: Some(Vec::new()),
    };
    proof {
        if let ExprV::New { args: Some(a), .. } = new_expr@ {
            assert(a =~= Seq::<ExprOrSpreadV>::empty());
        }
    }
    Stmt::Var {
        kind: VarKind::Var,
        name: String::from_str(RECORDER_INSTANCE_NAME),
        init: Some(Box::new(new_expr)),
    }
}

fn string_list2(a: &str, b: &str) -> (v: Vec<String>)
    ensures
        v@.map_values(|p: String| p@) == seq![a@, b@],
{
    let mut v: Vec<String> = Vec::new();
    v.push(String::from_str(a));
    v.push(String::from_str(b));
    assert(v@.map_values(|p: String| p@) =~= seq![a@, b@]);
    v
}

fn method(key: &str, params: Vec<String>, body: Vec<Stmt>) -> (m: ClassMember)
    ensures
        m@ == (ClassMemberV::Method {
            key: key@,
            params: params@.map_values(|p: String| p@),
            body: body@.map_values(|s: Stmt| s@),
        }),
{
    let m = ClassMember::Method { key: String::from_str(key), params, body };
    proof {
        if let ClassMemberV::Method { body: b, .. } = m@ {
            assert(b =~= body@.map_values(|s: Stmt| s@));
        }
    }
    m
}

fn stmts2(a: Stmt, b: Stmt) -> (v: Vec<Stmt>)
    ensures
        v@.map_values(|s: Stmt| s@) == seq![a@, b@],
{
    let mut v: Vec<Stmt> = Vec::new();
    v.push(a);
    v.push(b);
    assert(v@.map_values(|s: Stmt| s@) =~= seq![a@, b@]);
    v
}

fn stmts3(a: Stmt, b: Stmt, c: Stmt) -> (v: Vec<Stmt>)
    ensures
        v@.map_values(|s: Stmt| s@) == seq![a@, b@, c@],
{
    let mut v: Vec<Stmt> = Vec::new();
    v.push(a);
    v.push(b);
    v.push(c);
    assert(v@.map_values(|s: Stmt| s@) =~= seq![a@, b@, c@]);
    v
}

fn this_captured_expr() -> (e: Expr)
    ensures
        e@ == this_captured(),
{
    member(Expr::This, "captured")
}

/// `_capt(value, espath) { .. }`
fn capture_method_member() -> (m: ClassMember)
    ensures
        m@ == capture_method(),
{
    let mut props: Vec<ObjectProp> = Vec::new();
    props.push(shorthand("value"));
    props.push(shorthand("espath"));
    let obj = object(props);
    proof {
        if let ExprV::Object(ps) = obj@ {
            assert(ps =~= seq![ObjectPropV::Shorthand("value"@), ObjectPropV::Shorthand("espath"@)]);
        }
    }
    // this.captured.push({ value, espath })
    let push = call1(member(this_captured_expr(), "push"), obj);
    let body = stmts2(Stmt::Expr(Box::new(push)), Stmt::Return(Some(Box::new(ident("value")))));
    method(CAPTURE_METHOD_NAME, string_list2("value", "espath"), body)
}

/// `_expr(value, source) { .. }`
fn expression_method_member() -> (m: ClassMember)
    ensures
        m@ == expression_method(),
{
    // const capturedValues = this.captured;
    let decl = Stmt::Var {
        kind: VarKind::Const,
        name: String::from_str("capturedValues"),
        init: Some(Box::new(this_captured_expr())),
    };
    // this.captured = [];
    let empty = empty_array_expr();
    let captured_name = String::from_str("captured");
    let this_e = Expr::This;
    assert(this_e@ == ExprV::This);
    let assign = Expr::Assign {
        target: AssignTarget::Member { obj: Box::new(this_e), prop: captured_name },
        right: Box::new(empty),
    };
    assert(assign@ == ExprV::Assign {
        target: AssignTargetV::Member { obj: Box::new(ExprV::This), prop: "captured"@ },
        right: Box::new(empty_array()),
    });
    let reset = Stmt::Expr(Box::new(assign));
    // return { powerAssertContext: { value, events: capturedValues }, source };
    let mut inner: Vec<ObjectProp> = Vec::new();
    inner.push(shorthand("value"));
    inner.push(key_value("events", ident("capturedValues")));
    let context = object(inner);
    proof {
        if let ExprV::Object(ps) = context@ {
            assert(ps =~= seq![
                ObjectPropV::Shorthand("value"@),
                ObjectPropV::KeyValue("events"@, Box::new(ident_v("capturedValues"@))),
            ]);
        }
    }
    let mut outer: Vec<ObjectProp> = Vec::new();
    outer.push(key_value("powerAssertContext", context));
    outer.push(shorthand("source"));
    let result = object(outer);
    proof {
        if let ExprV::Object(ps) = result@ {
            assert(ps =~= seq![
                ObjectPropV::KeyValue("powerAssertContext"@, Box::new(context@)),
                ObjectPropV::Shorthand("source"@),
            ]);
        }
    }
    let ret = Stmt::Return(Some(Box::new(result)));
    assert(decl@ == StmtV::Var { kind: VarKind::Const, name: "capturedValues"@, init: Some(this_captured()) });
    assert(reset@ == StmtV::Expr(
        ExprV::Assign {
            target: AssignTargetV::Member { obj: Box::new(ExprV::This), prop: "captured"@ },
            right: Box::new(empty_array()),
        },
    ));
    let body = stmts3(decl, reset, ret);
    method(EXPRESSION_WRAPPER_METHOD_NAME, string_list2("value", "source"), body)
}

/// The recorder class that is injected into every file that has a transformed assertion.
pub fn power_assert_recorder_definition() -> (s: Stmt)
    ensures
        s@ == StmtV::Class(recorder_class()),
{
    let captured = ClassMember::Prop {
        key: String::from_str("captured"),
        value: Some(Box::new(empty_array_expr())),
    };
    let mut members: Vec<ClassMember> = Vec::new();
    members.push(captured);
    members.push(capture_method_member());
    members.push(expression_method_member());
    let class = ClassDecl { name: String::from_str(RECORDER_CLASS_NAME), members };
    assert(class@.members =~= recorder_class().members);
    Stmt::Class(class)
}


/// The method of the recorder instance that `e` calls, and with how many
/// arguments, when `e` is such a call.
pub open spec fn recorder_method_called(e: ExprV) -> Option<(Seq<char>, nat)> {
    match e {
        ExprV::Call(c) => match c.callee {
            CalleeV::Expr(f) => match *f {
                ExprV::Member { obj, prop: MemberPropV::Ident(m), .. } => match *obj {
                    ExprV::Ident(i) => if i.sym == RECORDER_INSTANCE_NAME@ {
                        Some((m, c.args.len()))
                    } else {
                        None
                    },
                    _ => None,
                },
                _ => None,
            },
            CalleeV::Other(_) => None,
        },
        _ => None,
    }
}

/// Whether the class `c` has a method named `name` with `n` parameters.
pub open spec fn defines_method(c: ClassDeclV, name: Seq<char>, n: nat) -> bool {
    exists|i: int|
        0 <= i < c.members.len() && (#[trigger] c.members[i] matches ClassMemberV::Method {
            key,
            params,
            ..
        } && key == name && params.len() == n)
}

/// The calls that transformed code makes are calls, on the recorder
/// instance, of methods that the injected recorder class defines, with as
/// many arguments as they have parameters; and the recorder instance is a
/// new instance of that class.
pub proof fn lemma_recorder_calls_are_defined(
    e: ExprV,
    path: Seq<char>,
    file_name: Seq<char>,
    source_code: Seq<char>,
    line: nat,
    ctx: RecorderContext,
)
    ensures
        recorder_method_called(capture_call(e, path)) matches Some((m, n)) && defines_method(
            recorder_class(),
            m,
            n,
        ),
        recorder_method_called(record_call(e, file_name, source_code, line, ctx)) matches Some((m, n))
            && defines_method(recorder_class(), m, n),
        recorder_instance_stmt() == (StmtV::Var {
            kind: VarKind::Var,
            name: RECORDER_INSTANCE_NAME@,
            init: Some(
                ExprV::New {
                    shell: None,
                    callee: Box::new(ident_v(recorder_class().name)),
                    args: Some(Seq::empty()),
                },
            ),
        }),
{
    let c = recorder_class();
    assert(c.members[1] == capture_method());
    assert(c.members[2] == expression_method());
}

/// Whether the object properties `props` hold a property named `key`.
pub open spec fn has_key(props: Seq<ObjectPropV>, key: Seq<char>) -> bool {
    exists|i: int|
        0 <= i < props.len() && (#[trigger] props[i] matches ObjectPropV::KeyValue(k, _) && k == key)
}

/// The properties of the record that a call `_rec._expr(value, record)` passes.
pub open spec fn record_props(r: ExprV) -> Option<Seq<ObjectPropV>> {
    match r {
        ExprV::Call(c) => if c.args.len() == 2 {
            match *c.args[1].expr {
                ExprV::Object(props) => Some(props),
                _ => None,
            }
        } else {
            None
        },
        _ => None,
    }
}

/// The record of an assertion tells where it stands (its source text, its
/// file and its line) and marks the function it stands in: `async: true`
/// exactly when that function is async, and `generator: true` exactly when
/// it is a generator, each whatever the other is.
pub proof fn lemma_record_marks_its_context(
    e: ExprV,
    file_name: Seq<char>,
    source_code: Seq<char>,
    line: nat,
    ctx: RecorderContext,
)
    ensures
        record_props(record_call(e, file_name, source_code, line, ctx)) matches Some(props) && {
            &&& props.contains(ObjectPropV::KeyValue("content"@, Box::new(str_v(source_code))))
            &&& props.contains(ObjectPropV::KeyValue("filepath"@, Box::new(str_v(file_name))))
            &&& props.contains(ObjectPropV::KeyValue("line"@, Box::new(ExprV::Num(line))))
            &&& has_key(props, "async"@) == ctx.is_async
            &&& ctx.is_async ==> props.contains(ObjectPropV::KeyValue("async"@, Box::new(ExprV::Bool(true))))
            &&& has_key(props, "generator"@) == ctx.is_generator
            &&& ctx.is_generator ==> props.contains(
                ObjectPropV::KeyValue("generator"@, Box::new(ExprV::Bool(true))),
            )
        },
{
    reveal_strlit("content");
    reveal_strlit("filepath");
    reveal_strlit("line");
    reveal_strlit("async");
    reveal_strlit("generator");
    let props = source_info(file_name, source_code, line, ctx);
    assert(props[0] == ObjectPropV::KeyValue("content"@, Box::new(str_v(source_code))));
    assert(props[1] == ObjectPropV::KeyValue("filepath"@, Box::new(str_v(file_name))));
    assert(props[2] == ObjectPropV::KeyValue("line"@, Box::new(ExprV::Num(line))));
    let a = ObjectPropV::KeyValue("async"@, Box::new(ExprV::Bool(true)));
    let g = ObjectPropV::KeyValue("generator"@, Box::new(ExprV::Bool(true)));
    if ctx.is_async {
        assert(props[3] == a);
        if ctx.is_generator {
            assert(props[4] == g);
        }
    } else if ctx.is_generator {
        assert(props[3] == g);
    }
    assert forall|i: int| #![trigger props[i]] 0 <= i < props.len() implies (props[i] matches ObjectPropV::KeyValue(k, _)
        && ((k == "async"@ ==> ctx.is_async) && (k == "generator"@ ==> ctx.is_generator))) by {
        assert("content"@[0] != "async"@[0] && "content"@[0] != "generator"@[0]);
        assert("filepath"@[0] != "async"@[0] && "filepath"@[0] != "generator"@[0]);
        assert("line"@ != "async"@ && "line"@ != "generator"@);
        assert("async"@ != "generator"@);
    }
}

/// The `_expr` method of the recorder hands out the values captured since
/// the previous assertion and then starts afresh: it keeps `this.captured` in
/// a constant, sets `this.captured` to a new empty array, and returns that
/// constant as the assertion's `events`.  So each assertion's events hold
/// only its own captures, and the recorder starts out with none.
pub proof fn lemma_expr_method_resets_captures()
    ensures
        recorder_class().members.len() == 3,
        recorder_class().members[0] == (ClassMemberV::Prop {
            key: "captured"@,
            value: Some(ExprV::Array { shell: None, elems: Seq::empty() }),
        }),
        recorder_class().members[2] matches ClassMemberV::Method { key, body, .. } && {
            &&& key == EXPRESSION_WRAPPER_METHOD_NAME@
            &&& body.len() == 3
            &&& body[0] == (StmtV::Var {
                kind: VarKind::Const,
                name: "capturedValues"@,
                init: Some(
                    ExprV::Member {
                        shell: None,
                        obj: Box::new(ExprV::This),
                        prop: MemberPropV::Ident("captured"@),
                    },
                ),
            })
            &&& body[1] == StmtV::Expr(
                ExprV::Assign {
                    target: AssignTargetV::Member { obj: Box::new(ExprV::This), prop: "captured"@ },
                    right: Box::new(ExprV::Array { shell: None, elems: Seq::empty() }),
                },
            )
            &&& match body[2] {
                StmtV::Return(Some(ExprV::Object(ret))) => ret.len() > 0 && match ret[0] {
                    ObjectPropV::KeyValue(k, c) => k == "powerAssertContext"@ && match *c {
                        ExprV::Object(inner) => inner.contains(
                            ObjectPropV::KeyValue(
                                "events"@,
                                Box::new(ExprV::Ident(IdentV { sym: "capturedValues"@, shell: None })),
                            ),
                        ),
                        _ => false,
                    },
                    _ => false,
                },
                _ => false,
            }
        },
{
    let m = expression_method();
    assert(recorder_class().members[2] == m);
    if let ClassMemberV::Method { body, .. } = m {
        if let StmtV::Return(Some(ExprV::Object(ret))) = body[2] {
            if let ObjectPropV::KeyValue(_, ctx) = ret[0] {
                if let ExprV::Object(inner) = *ctx {
                    assert(inner[1] == ObjectPropV::KeyValue(
                        "events"@,
                        Box::new(ExprV::Ident(IdentV { sym: "capturedValues"@, shell: None })),
                    ));
                }
            }
        }
    }
}

} // verus!
