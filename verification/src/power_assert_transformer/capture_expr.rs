//! Capturing the values of the sub-expressions of an asserted expression.
use vstd::prelude::*;

use super::PowerAssertTransformerVisitor;
use crate::ast::{
    args_view, elems_view, exprs_view, Callee, CalleeV, CallExpr, CallExprV, Expr, ExprOrSpread, ExprOrSpreadV,
    ExprV,
};
use crate::power_assert_recorder::{capture_call, wrap_in_capture};
use crate::text::{decimal, decimal_string, join, join_strings, strings_view};

verus! {

/// Where an expression stands, when that changes how it is captured.
#[derive(Clone, Copy, Debug, PartialEq, Eq)]
pub enum CaptureExprContext {
    /// The expression is what a call or `new` calls: its own value is a
    /// function, which is not worth printing, but its parts may be.
    InsideCallee,
}

/// The path segment of element `i` of an array literal.
pub open spec fn element_segment(i: int) -> Seq<char> {
    "elements/"@ + decimal(i as nat)
}

/// The path segment of argument `i` of a call.
pub open spec fn argument_segment(i: int) -> Seq<char> {
    "arguments/"@ + decimal(i as nat)
}

/// The path segment of expression `i` of a comma sequence.
pub open spec fn expression_segment(i: int) -> Seq<char> {
    "expressions/"@ + decimal(i as nat)
}

/// `e` wrapped in a capture of its value under `path`, unless it is a callee.
pub open spec fn capt(e: ExprV, path: Seq<Seq<char>>, in_callee: bool) -> ExprV {
    if in_callee {
        e
    } else {
        capture_call(e, join(path, "/"@))
    }
}

/// The arguments `args`, each captured under its own path below `path`.
pub open spec fn captured_args(args: Seq<ExprOrSpreadV>, path: Seq<Seq<char>>) -> Seq<
    ExprOrSpreadV,
>
    decreases args, 0nat,
{
    Seq::new(
        args.len(),
        |i: int|
            if 0 <= i < args.len() {
                ExprOrSpreadV {
                    spread: args[i].spread,
                    expr: Box::new(captured(*args[i].expr, path.push(argument_segment(i)), false)),
                }
            } else {
                ExprOrSpreadV { spread: None, expr: Box::new(ExprV::Invalid) }
            },
    )
}

/// The elements of an array literal, each captured under `elements/i` below `path`.
pub open spec fn captured_elems(elems: Seq<Option<ExprOrSpreadV>>, path: Seq<Seq<char>>) -> Seq<
    Option<ExprOrSpreadV>,
>
    decreases elems, 0nat,
{
    Seq::new(
        elems.len(),
        |i: int|
            if 0 <= i < elems.len() {
                match elems[i] {
                    Some(a) => Some(
                        ExprOrSpreadV {
                            spread: a.spread,
                            expr: Box::new(captured(*a.expr, path.push(element_segment(i)), false)),
                        },
                    ),
                    None => None,
                }
            } else {
                None
            },
    )
}

/// The expressions of a comma sequence, each captured under `expressions/i` below `path`.
pub open spec fn captured_exprs(exprs: Seq<ExprV>, path: Seq<Seq<char>>) -> Seq<ExprV>
    decreases exprs, 0nat,
{
    Seq::new(
        exprs.len(),
        |i: int|
            if 0 <= i < exprs.len() {
                captured(exprs[i], path.push(expression_segment(i)), false)
            } else {
                ExprV::Invalid
            },
    )
}

/// The asserted expression `e`, standing at `path`, with every sub-expression
/// whose value is worth printing wrapped in a capture: identifiers, `super`
/// properties, property accesses, calls, `new`, unary, binary and assignment
/// expressions and array literals.  Conditionals, comma sequences,
/// parentheses and TypeScript `as` and instantiation expressions are looked
/// through; everything else is left as it is.
pub open spec fn captured(e: ExprV, path: Seq<Seq<char>>, in_callee: bool) -> ExprV
    decreases e, 1nat,
{
    match e {
        ExprV::Array { shell, elems } => capt(
            ExprV::Array { shell, elems: captured_elems(elems, path) },
            path,
            in_callee,
        ),
        ExprV::Unary { shell, arg } => capt(
            ExprV::Unary { shell, arg: Box::new(captured(*arg, path.push("argument"@), false)) },
            path,
            in_callee,
        ),
        ExprV::Bin { shell, left, right } => capt(
            ExprV::Bin {
                shell,
                left: Box::new(captured(*left, path.push("left"@), false)),
                right: Box::new(captured(*right, path.push("right"@), false)),
            },
            path,
            in_callee,
        ),
        ExprV::Assign { target, right } => capt(
            ExprV::Assign { target, right: Box::new(captured(*right, path.push("right"@), false)) },
            path,
            in_callee,
        ),
        ExprV::Member { shell, obj, prop } => capt(
            ExprV::Member { shell, obj: Box::new(captured(*obj, path.push("object"@), false)), prop },
            path,
            in_callee,
        ),
        ExprV::Cond { shell, test, cons, alt } => ExprV::Cond {
            shell,
            test: Box::new(captured(*test, path.push("test"@), false)),
            cons: Box::new(captured(*cons, path.push("consequent"@), false)),
            alt: Box::new(captured(*alt, path.push("alternate"@), false)),
        },
        ExprV::Call(c) => capt(
            ExprV::Call(
                CallExprV {
                    shell: c.shell,
                    callee: match c.callee {
                        CalleeV::Expr(f) => CalleeV::Expr(
                            Box::new(captured(*f, path.push("callee"@), true)),
                        ),
                        CalleeV::Other(h) => CalleeV::Other(h),
                    },
                    args: captured_args(c.args, path),
                },
            ),
            path,
            in_callee,
        ),
        ExprV::New { shell, callee, args } => capt(
            ExprV::New {
                shell,
                callee: Box::new(captured(*callee, path.push("callee"@), true)),
                args: match args {
                    Some(a) => Some(captured_args(a, path)),
                    None => None,
                },
            },
            path,
            in_callee,
        ),
        ExprV::Sequence { shell, exprs } => ExprV::Sequence { shell, exprs: captured_exprs(exprs, path) },
        ExprV::Ident(_) => capt(e, path, in_callee),
        ExprV::SuperProp(_) => capt(e, path, in_callee),
        ExprV::Paren { shell, expr } => ExprV::Paren {
            shell,
            expr: Box::new(captured(*expr, path, false)),
        },
        ExprV::TsAs { shell, expr } => ExprV::TsAs { shell, expr: Box::new(captured(*expr, path, false)) },
        ExprV::TsInstantiation { shell, expr } => ExprV::TsInstantiation {
            shell,
            expr: Box::new(captured(*expr, path, false)),
        },
        _ => e,
    }
}


/// Whether some argument of `args` has a value captured.
pub open spec fn args_capture(args: Seq<ExprOrSpreadV>) -> bool
    decreases args, 1nat,
{
    some_arg_captures(args, args.len() as int)
}

/// Whether one of the first `n` arguments of `args` has a value captured.
pub open spec fn some_arg_captures(args: Seq<ExprOrSpreadV>, n: int) -> bool
    decreases args, 0nat,
{
    exists|j: int| #![trigger args[j]] 0 <= j < n && j < args.len() && captures_any(*args[j].expr, false)
}

/// Whether one of the first `n` elements of `elems` has a value captured.
pub open spec fn some_elem_captures(elems: Seq<Option<ExprOrSpreadV>>, n: int) -> bool
    decreases elems, 0nat,
{
    exists|j: int|
        #![trigger elems[j]]
        0 <= j < n && j < elems.len() && match elems[j] {
            Some(a) => captures_any(*a.expr, false),
            None => false,
        }
}

/// Whether one of the first `n` expressions of `exprs` has a value captured.
pub open spec fn some_expr_captures(exprs: Seq<ExprV>, n: int) -> bool
    decreases exprs, 0nat,
{
    exists|j: int| #![trigger exprs[j]] 0 <= j < n && j < exprs.len() && captures_any(exprs[j], false)
}

/// Whether capturing `e` wraps anything in a capture: this is when the
/// visitor learns that the program and the scope need a recorder.
pub open spec fn captures_any(e: ExprV, in_callee: bool) -> bool
    decreases e, 2nat,
{
    match e {
        ExprV::Array { elems, .. } => !in_callee || some_elem_captures(elems, elems.len() as int),
        ExprV::Unary { arg, .. } => !in_callee || captures_any(*arg, false),
        ExprV::Bin { left, right, .. } => !in_callee || captures_any(*left, false) || captures_any(
            *right,
            false,
        ),
        ExprV::Assign { right, .. } => !in_callee || captures_any(*right, false),
        ExprV::Member { obj, .. } => !in_callee || captures_any(*obj, false),
        ExprV::Cond { test, cons, alt, .. } => captures_any(*test, false) || captures_any(*cons, false)
            || captures_any(*alt, false),
        ExprV::Call(c) => !in_callee || match c.callee {
            CalleeV::Expr(f) => captures_any(*f, true),
            CalleeV::Other(_) => false,
        } || args_capture(c.args),
        ExprV::New { callee, args, .. } => !in_callee || captures_any(*callee, true) || match args {
            Some(a) => args_capture(a),
            None => false,
        },
        ExprV::Sequence { exprs, .. } => some_expr_captures(exprs, exprs.len() as int),
        ExprV::Ident(_) => !in_callee,
        ExprV::SuperProp(_) => !in_callee,
        ExprV::Paren { expr, .. } => captures_any(*expr, false),
        ExprV::TsAs { expr, .. } => captures_any(*expr, false),
        ExprV::TsInstantiation { expr, .. } => captures_any(*expr, false),
        _ => false,
    }
}

/// The path `path` extended by `seg`.
fn append_path(path: &Vec<String>, seg: String) -> (r: Vec<String>)
    ensures
        strings_view(r@) == strings_view(path@).push(seg@),
{
    let mut r: Vec<String> = Vec::new();
    let mut i: usize = 0;
    while i < path.len()
        invariant
            i <= path.len(),
            r@.len() == i,
            strings_view(r@) == strings_view(path@.take(i as int)),
        decreases path.len() - i,
    {
        assert(path@.take(i + 1) =~= path@.take(i as int).push(path@[i as int]));
        let ghost before = r@;
        let c = path[i].clone();
        assert(c@ == path@[i as int]@);
        r.push(c);
        assert(r@ == before.push(c));
        assert forall|k: int| 0 <= k < i + 1 implies #[trigger] strings_view(r@)[k] == strings_view(
            path@.take(i + 1),
        )[k] by {
            if k < i {
                assert(strings_view(before)[k] == strings_view(path@.take(i as int))[k]);
            }
        }
        assert(strings_view(r@) =~= strings_view(path@.take(i + 1)));
        i = i + 1;
    }
    assert(path@.take(path.len() as int) =~= path@);
    r.push(seg);
    assert(strings_view(r@) =~= strings_view(path@).push(seg@));
    r
}

/// `prefix` followed by `i` in decimal, such as `arguments/0`.
fn indexed_segment(prefix: &str, i: usize) -> (s: String)
    ensures
        s@ == prefix@ + decimal(i as nat),
{
    let mut s = String::from_str(prefix);
    let d = decimal_string(i);
    s.append(d.as_str());
    s
}

impl PowerAssertTransformerVisitor {
    /// Wraps `e` in a capture of its value under `path`, unless `e` is a callee.
    fn capture_here(&mut self, e: Expr, path: &Vec<String>, ctx: Option<CaptureExprContext>) -> (r:
        Expr)
        ensures
            r@ == capt(e@, strings_view(path@), ctx is Some),
            final(self).found_assertion == (old(self).found_assertion || ctx is None),
            final(self).needs_recorder == (old(self).needs_recorder || ctx is None),
            final(self).file_name == old(self).file_name,
            final(self).recorder_context == old(self).recorder_context,
    {
        match ctx {
            Some(_) => e,
            None => {
                self.found_assertion = true;
                self.needs_recorder = true;
                wrap_in_capture(e, join_strings(path, "/"))
            },
        }
    }

    /// Captures each argument of a call or `new` under `arguments/i` below `path`.
    fn capture_args(&mut self, args: Vec<ExprOrSpread>, path: &Vec<String>) -> (r: Vec<
        ExprOrSpread,
    >)
        ensures
            args_view(r@) == captured_args(args_view(args@), strings_view(path@)),
            final(self).found_assertion == (old(self).found_assertion || args_capture(
                args_view(args@),
            )),
            final(self).needs_recorder == (old(self).needs_recorder || args_capture(
                args_view(args@),
            )),
            final(self).file_name == old(self).file_name,
            final(self).recorder_context == old(self).recorder_context,
        decreases args, 0nat,
    {
        let n: usize = args.len();
        let ghost orig = args;
        let ghost av = args_view(args@);
        let ghost pv = strings_view(path@);
        let ghost found0 = self.found_assertion;
        let ghost needs0 = self.needs_recorder;
        let ghost name0 = self.file_name;
        let ghost ctx0 = self.recorder_context;
        let mut out: Vec<ExprOrSpread> = Vec::new();
        let mut i: usize = 0;
        for a in it: args.into_iter()
            invariant
                it.seq() == orig@,
                av == args_view(orig@),
                pv == strings_view(path@),
                i == it.index(),
                i <= orig@.len(),
                orig@.len() == n,
                out@.len() == i,
                forall|j: int| 0 <= j < i ==> #[trigger] out@[j]@ == captured_args(av, pv)[j],
                self.found_assertion == (found0 || some_arg_captures(av, i as int)),
                self.needs_recorder == (needs0 || some_arg_captures(av, i as int)),
                self.file_name == name0,
                self.recorder_context == ctx0,
        {
            proof {
                vstd::std_specs::vec::axiom_vec_index_decreases(orig, i as int);
                assert(decreases_to!(orig => a.expr));
            }
            let seg = indexed_segment("arguments/", i);
            let sub = append_path(path, seg);
            let ghost arg_v = (*a.expr)@;
            let e = self.capture_expr(*a.expr, sub, None);
            proof {
                assert(arg_v == *av[i as int].expr);
                assert(captured_args(av, pv)[i as int].expr == Box::new(
                    captured(arg_v, pv.push(argument_segment(i as int)), false),
                ));
                if captures_any(arg_v, false) {
                    // names the trigger term of the `exists` in `some_arg_captures(av, i + 1)`, so that this index is its witness
                    assert(av[i as int] == av[i as int]);
                }
                assert(some_arg_captures(av, i + 1) == (some_arg_captures(av, i as int)
                    || captures_any(arg_v, false)));
            }
            out.push(ExprOrSpread { spread: a.spread, expr: Box::new(e) });
            i = i + 1;
        }
        proof {
            assert(i == orig@.len());
            assert(av.len() == i);
            assert(captured_args(av, pv).len() == i);
            assert forall|j: int| 0 <= j < i implies #[trigger] args_view(out@)[j]
                == captured_args(av, pv)[j] by {
                assert(out@[j]@ == captured_args(av, pv)[j]);
            }
            assert(args_view(out@) =~= captured_args(av, pv));
            assert(some_arg_captures(av, i as int) == args_capture(av));
        }
        out
    }

    /// Rewrites the asserted expression `node`, which stands at `path`,
    /// capturing the values of its sub-expressions.
    #[verifier::spinoff_prover]
    #[verifier::rlimit(100)]
    pub fn capture_expr(&mut self, node: Expr, path: Vec<String>, ctx: Option<CaptureExprContext>) -> (r:
        Expr)
        ensures
            r@ == captured(node@, strings_view(path@), ctx is Some),
            final(self).found_assertion == (old(self).found_assertion || captures_any(
                node@,
                ctx is Some,
            )),
            final(self).needs_recorder == (old(self).needs_recorder || captures_any(
                node@,
                ctx is Some,
            )),
            final(self).file_name == old(self).file_name,
            final(self).recorder_context == old(self).recorder_context,
        decreases node, 1nat,
    {
        let ghost nv = node@;
        let ghost pv = strings_view(path@);
        match node {
            Expr::Array { shell, elems } => {
                let ghost in_v = elems_view(elems@);
                proof {
                    if let ExprV::Array { elems: ev, .. } = nv {
                        assert(ev =~= in_v);
                    }
                }
                let elems = self.capture_elems(elems, &path);
                let arr = Expr::Array { shell, elems };
                proof {
                    if let ExprV::Array { elems: ev, .. } = nv {
                        if let ExprV::Array { elems: av, .. } = arr@ {
                            assert(av =~= captured_elems(ev, pv));
                        }
                    }
                }
                self.capture_here(arr, &path, ctx)
            },
            Expr::Unary { shell, arg } => {
                let sub = append_path(&path, String::from_str("argument"));
                let a = self.capture_expr(*arg, sub, None);
                self.capture_here(Expr::Unary { shell, arg: Box::new(a) }, &path, ctx)
            },
            Expr::Bin { shell, left, right } => {
                let l = self.capture_expr(*left, append_path(&path, String::from_str("left")), None);
                let r = self.capture_expr(*right, append_path(&path, String::from_str("right")), None);
                self.capture_here(Expr::Bin { shell, left: Box::new(l), right: Box::new(r) }, &path, ctx)
            },
            Expr::Assign { target, right } => {
                let r = self.capture_expr(*right, append_path(&path, String::from_str("right")), None);
                self.capture_here(Expr::Assign { target, right: Box::new(r) }, &path, ctx)
            },
            Expr::Member { shell, obj, prop } => {
                let o = self.capture_expr(*obj, append_path(&path, String::from_str("object")), None);
                self.capture_here(Expr::Member { shell, obj: Box::new(o), prop }, &path, ctx)
            },
            Expr::Cond { shell, test, cons, alt } => {
                let t = self.capture_expr(*test, append_path(&path, String::from_str("test")), None);
                let c = self.capture_expr(
                    *cons,
                    append_path(&path, String::from_str("consequent")),
                    None,
                );
                let a = self.capture_expr(*alt, append_path(&path, String::from_str("alternate")), None);
                Expr::Cond { shell, test: Box::new(t), cons: Box::new(c), alt: Box::new(a) }
            },
            Expr::Call(call) => {
                assert(call@.args =~= args_view(call.args@));
                let CallExpr { shell, callee, args } = call;
                // The callee itself is a function, not worth printing, but its parts may be.
                let callee = match callee {
                    Callee::Expr(f) => Callee::Expr(
                        Box::new(
                            self.capture_expr(
                                *f,
                                append_path(&path, String::from_str("callee")),
                                Some(CaptureExprContext::InsideCallee),
                            ),
                        ),
                    ),
                    Callee::Other(h) => Callee::Other(h),
                };
                let args = self.capture_args(args, &path);
                let c = CallExpr { shell, callee, args };
                assert(c@.args =~= args_view(c.args@));
                self.capture_here(Expr::Call(c), &path, ctx)
            },
            Expr::New { shell, callee, args } => {
                let f = self.capture_expr(
                    *callee,
                    append_path(&path, String::from_str("callee")),
                    Some(CaptureExprContext::InsideCallee),
                );
                let args = match args {
                    Some(a) => {
                        let ghost a_in = args_view(a@);
                        proof {
                            if let ExprV::New { args: Some(av), .. } = nv {
                                assert(av =~= a_in);
                            }
                        }
                        let out = self.capture_args(a, &path);
                        Some(out)
                    },
                    None => None,
                };
                let n = Expr::New { shell, callee: Box::new(f), args };
                proof {
                    if let ExprV::New { args: Some(av), .. } = n@ {
                        assert(av =~= args_view(args->0@));
                    }
                }
                self.capture_here(n, &path, ctx)
            },
            Expr::Sequence { shell, exprs } => {
                let ghost in_v = exprs_view(exprs@);
                proof {
                    if let ExprV::Sequence { exprs: ev, .. } = nv {
                        assert(ev =~= in_v);
                    }
                }
                let exprs = self.capture_exprs(exprs, &path);
                let sq = Expr::Sequence { shell, exprs };
                proof {
                    if let ExprV::Sequence { exprs: ev, .. } = nv {
                        if let ExprV::Sequence { exprs: sv, .. } = sq@ {
                            assert(sv =~= captured_exprs(ev, pv));
                        }
                    }
                }
                sq
            },
            Expr::Ident(id) => self.capture_here(Expr::Ident(id), &path, ctx),
            Expr::SuperProp(h) => self.capture_here(Expr::SuperProp(h), &path, ctx),
            // Thin wrappers: look through them, at the same path.
            Expr::Paren { shell, expr } => {
                let e = self.capture_expr(*expr, path, None);
                Expr::Paren { shell, expr: Box::new(e) }
            },
            Expr::TsAs { shell, expr } => {
                let e = self.capture_expr(*expr, path, None);
                Expr::TsAs { shell, expr: Box::new(e) }
            },
            Expr::TsInstantiation { shell, expr } => {
                let e = self.capture_expr(*expr, path, None);
                Expr::TsInstantiation { shell, expr: Box::new(e) }
            },
            // Literals, `this`, classes and everything else are neither captured nor looked into.
            other => other,
        }
    }

    /// Captures each element of an array literal under `elements/i` below `path`.
    fn capture_elems(&mut self, elems: Vec<Option<ExprOrSpread>>, path: &Vec<String>) -> (r: Vec<
        Option<ExprOrSpread>,
    >)
        ensures
            elems_view(r@) == captured_elems(elems_view(elems@), strings_view(path@)),
            final(self).found_assertion == (old(self).found_assertion || some_elem_captures(
                elems_view(elems@),
                elems@.len() as int,
            )),
            final(self).needs_recorder == (old(self).needs_recorder || some_elem_captures(
                elems_view(elems@),
                elems@.len() as int,
            )),
            final(self).file_name == old(self).file_name,
            final(self).recorder_context == old(self).recorder_context,
        decreases elems, 0nat,
    {
        let n: usize = elems.len();
        let ghost orig = elems;
        let ghost ev = elems_view(elems@);
        let ghost pv = strings_view(path@);
        let ghost found0 = self.found_assertion;
        let ghost needs0 = self.needs_recorder;
        let ghost name0 = self.file_name;
        let ghost ctx0 = self.recorder_context;
        let mut out: Vec<Option<ExprOrSpread>> = Vec::new();
        let mut i: usize = 0;
        for el in it: elems.into_iter()
            invariant
                it.seq() == orig@,
                ev == elems_view(orig@),
                pv == strings_view(path@),
                i == it.index(),
                i <= orig@.len(),
                orig@.len() == n,
                out@.len() == i,
                forall|j: int|
                    0 <= j < i ==> #[trigger] elems_view(out@)[j] == captured_elems(ev, pv)[j],
                self.found_assertion == (found0 || some_elem_captures(ev, i as int)),
                self.needs_recorder == (needs0 || some_elem_captures(ev, i as int)),
                self.file_name == name0,
                self.recorder_context == ctx0,
        {
            assert(el == orig@[i as int]);
            let ghost before = out@;
            match el {
                Some(a) => {
                    proof {
                        vstd::std_specs::vec::axiom_vec_index_decreases(orig, i as int);
                        assert(decreases_to!(orig => a.expr));
                    }
                    let sub = append_path(path, indexed_segment("elements/", i));
                    let ghost el_v = (*a.expr)@;
                    let e = self.capture_expr(*a.expr, sub, None);
                    out.push(Some(ExprOrSpread { spread: a.spread, expr: Box::new(e) }));
                    proof {
                        assert(ev[i as int] == Some(ExprOrSpreadV { spread: a.spread, expr: Box::new(el_v) }));
                        if captures_any(el_v, false) {
                            // names the trigger term of the `exists` in `some_elem_captures(ev, i + 1)`, so that this index is its witness
                            assert(ev[i as int] == ev[i as int]);
                        }
                    }
                },
                None => {
                    out.push(None);
                    assert(ev[i as int] is None);
                },
            }
            proof {
                assert forall|j: int| 0 <= j < i + 1 implies #[trigger] elems_view(out@)[j]
                    == captured_elems(ev, pv)[j] by {
                    if j < i {
                        assert(out@[j] == before[j]);
                        assert(elems_view(before)[j] == captured_elems(ev, pv)[j]);
                    }
                }
                assert(some_elem_captures(ev, i + 1) == (some_elem_captures(ev, i as int) || match ev[i as int] {
                    Some(a) => captures_any(*a.expr, false),
                    None => false,
                }));
            }
            i = i + 1;
        }
        proof {
            assert(elems_view(out@) =~= captured_elems(ev, pv));
        }
        out
    }

    /// Captures each expression of a comma sequence under `expressions/i` below `path`.
    fn capture_exprs(&mut self, exprs: Vec<Expr>, path: &Vec<String>) -> (r: Vec<Expr>)
        ensures
            exprs_view(r@) == captured_exprs(exprs_view(exprs@), strings_view(path@)),
            final(self).found_assertion == (old(self).found_assertion || some_expr_captures(
                exprs_view(exprs@),
                exprs@.len() as int,
            )),
            final(self).needs_recorder == (old(self).needs_recorder || some_expr_captures(
                exprs_view(exprs@),
                exprs@.len() as int,
            )),
            final(self).file_name == old(self).file_name,
            final(self).recorder_context == old(self).recorder_context,
        decreases exprs, 0nat,
    {
        let n: usize = exprs.len();
        let ghost orig = exprs;
        let ghost ev = exprs_view(exprs@);
        let ghost pv = strings_view(path@);
        let ghost found0 = self.found_assertion;
        let ghost needs0 = self.needs_recorder;
        let ghost name0 = self.file_name;
        let ghost ctx0 = self.recorder_context;
        let mut out: Vec<Expr> = Vec::new();
        let mut i: usize = 0;
        for x in it: exprs.into_iter()
            invariant
                it.seq() == orig@,
                ev == exprs_view(orig@),
                pv == strings_view(path@),
                i == it.index(),
                i <= orig@.len(),
                orig@.len() == n,
                out@.len() == i,
                forall|j: int|
                    0 <= j < i ==> #[trigger] exprs_view(out@)[j] == captured_exprs(ev, pv)[j],
                self.found_assertion == (found0 || some_expr_captures(ev, i as int)),
                self.needs_recorder == (needs0 || some_expr_captures(ev, i as int)),
                self.file_name == name0,
                self.recorder_context == ctx0,
        {
            assert(x == orig@[i as int]);
            proof {
                vstd::std_specs::vec::axiom_vec_index_decreases(orig, i as int);
            }
            let ghost before = out@;
            let sub = append_path(path, indexed_segment("expressions/", i));
            let ghost x_v = x@;
            let e = self.capture_expr(x, sub, None);
            out.push(e);
            proof {
                assert(ev[i as int] == x_v);
                assert forall|j: int| 0 <= j < i + 1 implies #[trigger] exprs_view(out@)[j]
                    == captured_exprs(ev, pv)[j] by {
                    if j < i {
                        assert(out@[j] == before[j]);
                        assert(exprs_view(before)[j] == captured_exprs(ev, pv)[j]);
                    }
                }
                if captures_any(x_v, false) {
                    // names the trigger term of the `exists` in `some_expr_captures(ev, i + 1)`, so that this index is its witness
                    assert(ev[i as int] == ev[i as int]);
                }
                assert(some_expr_captures(ev, i + 1) == (some_expr_captures(ev, i as int)
                    || captures_any(x_v, false)));
            }
            i = i + 1;
        }
        proof {
            assert(exprs_view(out@) =~= captured_exprs(ev, pv));
        }
        out
    }
}


/// Capturing leaves an expression as it is when nothing in it is worth
/// capturing: an assertion such as `assert(true)` is not touched.
pub proof fn lemma_capture_nothing_is_identity(e: ExprV, path: Seq<Seq<char>>, in_callee: bool)
    requires
        !captures_any(e, in_callee),
    ensures
        captured(e, path, in_callee) == e,
    decreases e,
{
    match e {
        ExprV::Array { shell, elems } => {
            let ce = captured_elems(elems, path);
            assert forall|i: int| 0 <= i < elems.len() implies ce[i] == elems[i] by {
                if let Some(a) = elems[i] {
                    assert(!some_elem_captures(elems, elems.len() as int));
                    assert(!captures_any(*a.expr, false));
                    assert(decreases_to!(e => elems));
                    assert(decreases_to!(elems => elems[i]));
                    lemma_capture_nothing_is_identity(*a.expr, path.push(element_segment(i)), false);
                }
            }
            assert(ce =~= elems);
        },
        ExprV::Unary { arg, .. } => {
            lemma_capture_nothing_is_identity(*arg, path.push("argument"@), false);
        },
        ExprV::Bin { left, right, .. } => {
            lemma_capture_nothing_is_identity(*left, path.push("left"@), false);
            lemma_capture_nothing_is_identity(*right, path.push("right"@), false);
        },
        ExprV::Assign { right, .. } => {
            lemma_capture_nothing_is_identity(*right, path.push("right"@), false);
        },
        ExprV::Member { obj, .. } => {
            lemma_capture_nothing_is_identity(*obj, path.push("object"@), false);
        },
        ExprV::Cond { test, cons, alt, .. } => {
            lemma_capture_nothing_is_identity(*test, path.push("test"@), false);
            lemma_capture_nothing_is_identity(*cons, path.push("consequent"@), false);
            lemma_capture_nothing_is_identity(*alt, path.push("alternate"@), false);
        },
        ExprV::Call(c) => {
            if let CalleeV::Expr(f) = c.callee {
                lemma_capture_nothing_is_identity(*f, path.push("callee"@), true);
            }
            lemma_args_nothing_is_identity(c.args, path);
        },
        ExprV::New { callee, args, .. } => {
            lemma_capture_nothing_is_identity(*callee, path.push("callee"@), true);
            if let Some(a) = args {
                lemma_args_nothing_is_identity(a, path);
            }
        },
        ExprV::Sequence { exprs, .. } => {
            let ce = captured_exprs(exprs, path);
            assert forall|i: int| 0 <= i < exprs.len() implies ce[i] == exprs[i] by {
                assert(!some_expr_captures(exprs, exprs.len() as int));
                assert(!captures_any(exprs[i], false));
                assert(decreases_to!(e => exprs));
                lemma_capture_nothing_is_identity(exprs[i], path.push(expression_segment(i)), false);
            }
            assert(ce =~= exprs);
        },
        ExprV::Paren { expr, .. } => {
            lemma_capture_nothing_is_identity(*expr, path, false);
        },
        ExprV::TsAs { expr, .. } => {
            lemma_capture_nothing_is_identity(*expr, path, false);
        },
        ExprV::TsInstantiation { expr, .. } => {
            lemma_capture_nothing_is_identity(*expr, path, false);
        },
        _ => {},
    }
}

proof fn lemma_args_nothing_is_identity(args: Seq<ExprOrSpreadV>, path: Seq<Seq<char>>)
    requires
        !args_capture(args),
    ensures
        captured_args(args, path) == args,
    decreases args,
{
    let ca = captured_args(args, path);
    assert forall|i: int| 0 <= i < args.len() implies ca[i] == args[i] by {
        assert(!captures_any(*args[i].expr, false));
        lemma_capture_nothing_is_identity(*args[i].expr, path.push(argument_segment(i)), false);
    }
    assert(ca =~= args);
}

} // verus!
