//! What capturing does to an expression as a whole: it only wraps
//! sub-expressions, it wraps one exactly when the visitor's flags say so,
//! and no two of the captures it adds share a path.
use vstd::prelude::*;

use super::capture_expr::{
    argument_segment, args_capture, capt, captured, captured_args, captured_elems, captured_exprs,
    captures_any, element_segment, expression_segment, some_arg_captures, some_elem_captures, some_expr_captures,
};
use crate::ast::{CallExprV, CalleeV, ExprOrSpreadV, ExprV};
use crate::power_assert_recorder::{
    capture_call, ident_v, member_v, CAPTURE_METHOD_NAME, RECORDER_INSTANCE_NAME,
};
use crate::text::{decimal, join, lemma_decimal_has_no_slash, lemma_decimal_injective};

verus! {

/// Whether `e` is a capture `_rec._capt(value, "path")` as capturing builds it.
pub open spec fn is_capture(e: ExprV) -> bool {
    match e {
        ExprV::Call(c) => c.args.len() == 2 && (match *c.args[1].expr {
            ExprV::Str(s) => e == capture_call(*c.args[0].expr, s.value),
            _ => false,
        }),
        _ => false,
    }
}

/// Both lists of paths, one after the other, when there are both.
pub open spec fn both(a: Option<Seq<Seq<char>>>, b: Option<Seq<Seq<char>>>) -> Option<Seq<Seq<char>>> {
    match a {
        Some(x) => match b {
            Some(y) => Some(x + y),
            None => None,
        },
        None => None,
    }
}

/// When `r` is `e` with some of its sub-expressions, at any depth, wrapped
/// in captures and nothing else changed: the paths of those captures, each
/// before the captures inside it, in the order of the tree.  `None` when `r`
/// is not such a wrapping of `e`.
pub open spec fn added_captures(r: ExprV, e: ExprV) -> Option<Seq<Seq<char>>>
    decreases r, 0nat,
{
    let as_wrapper = if is_capture(r) {
        match r {
            ExprV::Call(c) => match *c.args[1].expr {
                ExprV::Str(s) => match added_captures(*c.args[0].expr, e) {
                    Some(inner) => Some(seq![s.value] + inner),
                    None => None,
                },
                _ => None,
            },
            _ => None,
        }
    } else {
        None
    };
    if as_wrapper is Some {
        as_wrapper
    } else {
        match r {
            ExprV::Array { shell, elems } => match e {
                ExprV::Array { shell: s2, elems: e2 } => if shell == s2 && elems.len() == e2.len() {
                    elems_added(elems, e2, elems.len())
                } else {
                    None
                },
                _ => None,
            },
            ExprV::Unary { shell, arg } => match e {
                ExprV::Unary { shell: s2, arg: a2 } => if shell == s2 {
                    added_captures(*arg, *a2)
                } else {
                    None
                },
                _ => None,
            },
            ExprV::Bin { shell, left, right } => match e {
                ExprV::Bin { shell: s2, left: l2, right: r2 } => if shell == s2 {
                    both(added_captures(*left, *l2), added_captures(*right, *r2))
                } else {
                    None
                },
                _ => None,
            },
            ExprV::Assign { target, right } => match e {
                ExprV::Assign { target: t2, right: r2 } => if target == t2 {
                    added_captures(*right, *r2)
                } else {
                    None
                },
                _ => None,
            },
            ExprV::Member { shell, obj, prop } => match e {
                ExprV::Member { shell: s2, obj: o2, prop: p2 } => if shell == s2 && prop == p2 {
                    added_captures(*obj, *o2)
                } else {
                    None
                },
                _ => None,
            },
            ExprV::Cond { shell, test, cons, alt } => match e {
                ExprV::Cond { shell: s2, test: t2, cons: c2, alt: a2 } => if shell == s2 {
                    both(
                        both(added_captures(*test, *t2), added_captures(*cons, *c2)),
                        added_captures(*alt, *a2),
                    )
                } else {
                    None
                },
                _ => None,
            },
            ExprV::Call(c) => match e {
                ExprV::Call(d) => if c.shell == d.shell && c.args.len() == d.args.len() {
                    both(
                        match c.callee {
                            CalleeV::Expr(f) => match d.callee {
                                CalleeV::Expr(g) => added_captures(*f, *g),
                                CalleeV::Other(_) => None,
                            },
                            CalleeV::Other(h) => match d.callee {
                                CalleeV::Other(k) => if h == k {
                                    Some(Seq::empty())
                                } else {
                                    None
                                },
                                CalleeV::Expr(_) => None,
                            },
                        },
                        args_added(c.args, d.args, c.args.len()),
                    )
                } else {
                    None
                },
                _ => None,
            },
            ExprV::New { shell, callee, args } => match e {
                ExprV::New { shell: s2, callee: c2, args: a2 } => if shell == s2 {
                    both(
                        added_captures(*callee, *c2),
                        match args {
                            Some(a) => match a2 {
                                Some(b) => if a.len() == b.len() {
                                    args_added(a, b, a.len())
                                } else {
                                    None
                                },
                                None => None,
                            },
                            None => if a2 is None {
                                Some(Seq::empty())
                            } else {
                                None
                            },
                        },
                    )
                } else {
                    None
                },
                _ => None,
            },
            ExprV::Sequence { shell, exprs } => match e {
                ExprV::Sequence { shell: s2, exprs: e2 } => if shell == s2 && exprs.len() == e2.len() {
                    exprs_added(exprs, e2, exprs.len())
                } else {
                    None
                },
                _ => None,
            },
            ExprV::Paren { shell, expr } => match e {
                ExprV::Paren { shell: s2, expr: x2 } => if shell == s2 {
                    added_captures(*expr, *x2)
                } else {
                    None
                },
                _ => None,
            },
            ExprV::TsAs { shell, expr } => match e {
                ExprV::TsAs { shell: s2, expr: x2 } => if shell == s2 {
                    added_captures(*expr, *x2)
                } else {
                    None
                },
                _ => None,
            },
            ExprV::TsInstantiation { shell, expr } => match e {
                ExprV::TsInstantiation { shell: s2, expr: x2 } => if shell == s2 {
                    added_captures(*expr, *x2)
                } else {
                    None
                },
                _ => None,
            },
            _ => if r == e {
                Some(Seq::empty())
            } else {
                None
            },
        }
    }
}

/// The captures added to the first `n` arguments of `es` to give those of `rs`.
pub open spec fn args_added(rs: Seq<ExprOrSpreadV>, es: Seq<ExprOrSpreadV>, n: nat) -> Option<
    Seq<Seq<char>>,
>
    decreases rs, n,
{
    if n == 0 {
        Some(Seq::empty())
    } else if n > rs.len() || n > es.len() {
        None
    } else if rs[n - 1].spread == es[n - 1].spread {
        both(args_added(rs, es, (n - 1) as nat), added_captures(*rs[n - 1].expr, *es[n - 1].expr))
    } else {
        None
    }
}

/// The captures added to the first `n` elements of `es` to give those of `rs`.
pub open spec fn elems_added(
    rs: Seq<Option<ExprOrSpreadV>>,
    es: Seq<Option<ExprOrSpreadV>>,
    n: nat,
) -> Option<Seq<Seq<char>>>
    decreases rs, n,
{
    if n == 0 {
        Some(Seq::empty())
    } else if n > rs.len() || n > es.len() {
        None
    } else {
        match rs[n - 1] {
            Some(a) => match es[n - 1] {
                Some(b) => if a.spread == b.spread {
                    both(elems_added(rs, es, (n - 1) as nat), added_captures(*a.expr, *b.expr))
                } else {
                    None
                },
                None => None,
            },
            None => if es[n - 1] is None {
                elems_added(rs, es, (n - 1) as nat)
            } else {
                None
            },
        }
    }
}

/// The captures added to the first `n` expressions of `es` to give those of `rs`.
pub open spec fn exprs_added(rs: Seq<ExprV>, es: Seq<ExprV>, n: nat) -> Option<Seq<Seq<char>>>
    decreases rs, n,
{
    if n == 0 {
        Some(Seq::empty())
    } else if n > rs.len() || n > es.len() {
        None
    } else {
        both(exprs_added(rs, es, (n - 1) as nat), added_captures(rs[n - 1], es[n - 1]))
    }
}

/// Whether the text `s` is the path `q` or a path below it.
pub open spec fn extends(s: Seq<char>, q: Seq<char>) -> bool {
    s == q || (s.len() > q.len() && s.take(q.len() + 1int) == q.push('/'))
}

/// Whether the text `s` starts with `q`.
pub open spec fn starts(s: Seq<char>, q: Seq<char>) -> bool {
    s.len() >= q.len() && s.take(q.len() as int) == q
}

/// What the path of a place below `path` starts with.
pub open spec fn path_prefix(path: Seq<Seq<char>>) -> Seq<char> {
    if path.len() == 0 {
        Seq::empty()
    } else {
        join(path, "/"@).push('/')
    }
}

/// Whether the capture path `s` names the place `path` or a place below it.
pub open spec fn lies_under(s: Seq<char>, path: Seq<Seq<char>>) -> bool {
    path.len() == 0 || extends(s, join(path, "/"@))
}

/// Whether `ps` are the paths of the captures added to an expression at
/// `path`: all at or below `path`, no two the same.
pub open spec fn distinct_under(ps: Seq<Seq<char>>, path: Seq<Seq<char>>) -> bool {
    &&& ps.no_duplicates()
    &&& forall|k: int| 0 <= k < ps.len() ==> lies_under(#[trigger] ps[k], path)
}

proof fn lemma_extends_index(s: Seq<char>, q: Seq<char>, k: int)
    requires
        extends(s, q),
        0 <= k < q.len(),
    ensures
        s[k] == q[k],
        s.len() >= q.len(),
{
    if s != q {
        assert(s.take(q.len() + 1int)[k] == q.push('/')[k]);
    }
}

proof fn lemma_extends_starts(s: Seq<char>, q: Seq<char>)
    requires
        extends(s, q),
    ensures
        starts(s, q),
{
    assert forall|k: int| 0 <= k < q.len() implies s.take(q.len() as int)[k] == q[k] by {
        lemma_extends_index(s, q, k);
    }
    if q.len() > 0 {
        lemma_extends_index(s, q, 0);
    }
    assert(s.take(q.len() as int) =~= q);
}

proof fn lemma_join_push(path: Seq<Seq<char>>, seg: Seq<char>)
    ensures
        join(path.push(seg), "/"@) == path_prefix(path) + seg,
{
    reveal_strlit("/");
    if path.len() == 0 {
        assert(path.push(seg).len() == 1);
        assert(path_prefix(path) + seg =~= seg);
    } else {
        assert(path.push(seg).drop_last() =~= path);
        assert(join(path, "/"@) + "/"@ + seg =~= join(path, "/"@).push('/') + seg);
    }
}

/// A path that names a place below the child `seg` of `path` lies under
/// `path` and is longer than the path of `path` itself.
proof fn lemma_child_under(s: Seq<char>, path: Seq<Seq<char>>, seg: Seq<char>)
    requires
        seg.len() > 0,
        extends(s, path_prefix(path) + seg),
    ensures
        lies_under(s, path),
        s.len() > join(path, "/"@).len(),
{
    let q = path_prefix(path) + seg;
    lemma_extends_index(s, q, 0);
    if path.len() > 0 {
        let j = join(path, "/"@);
        assert forall|k: int| 0 <= k < j.len() + 1 implies s.take(j.len() + 1int)[k] == j.push('/')[k] by {
            lemma_extends_index(s, q, k);
        }
        assert(s.take(j.len() + 1int) =~= j.push('/'));
    }
}

/// No path names a place below two children of one node whose segments
/// start with different characters.
proof fn lemma_apart_first(s: Seq<char>, pre: Seq<char>, a: Seq<char>, b: Seq<char>)
    requires
        a.len() > 0,
        b.len() > 0,
        a[0] != b[0],
    ensures
        !(extends(s, pre + a) && extends(s, pre + b)),
{
    if extends(s, pre + a) && extends(s, pre + b) {
        lemma_extends_index(s, pre + a, pre.len() as int);
        lemma_extends_index(s, pre + b, pre.len() as int);
    }
}

/// No path names a place below one child of a node and starts with the
/// common start of the numbered children when their first characters differ.
proof fn lemma_apart_start(s: Seq<char>, pre: Seq<char>, a: Seq<char>, w: Seq<char>)
    requires
        a.len() > 0,
        w.len() > 0,
        a[0] != w[0],
    ensures
        !(extends(s, pre + a) && starts(s, pre + w)),
{
    if extends(s, pre + a) && starts(s, pre + w) {
        lemma_extends_index(s, pre + a, pre.len() as int);
        assert(s.take((pre + w).len() as int)[pre.len() as int] == (pre + w)[pre.len() as int]);
    }
}

proof fn lemma_apart_shorter(s: Seq<char>, pre: Seq<char>, w: Seq<char>, i: nat, j: nat)
    requires
        decimal(i).len() < decimal(j).len(),
    ensures
        !(extends(s, pre + (w + decimal(i))) && extends(s, pre + (w + decimal(j)))),
{
    let qa = pre + (w + decimal(i));
    let qb = pre + (w + decimal(j));
    if extends(s, qa) && extends(s, qb) {
        lemma_decimal_has_no_slash(j);
        lemma_extends_index(s, qb, qa.len() as int);
        assert(qb[qa.len() as int] == decimal(j)[decimal(i).len() as int]);
        assert(s != qa);
        assert(s.take(qa.len() + 1int)[qa.len() as int] == '/');
    }
}

/// No path names a place below two numbered children of one node, such as
/// two arguments of a call.
proof fn lemma_apart_indexed(s: Seq<char>, pre: Seq<char>, w: Seq<char>, i: nat, j: nat)
    requires
        i != j,
    ensures
        !(extends(s, pre + (w + decimal(i))) && extends(s, pre + (w + decimal(j)))),
{
    let m = pre.len() + w.len();
    if !(extends(s, pre + (w + decimal(i))) && extends(s, pre + (w + decimal(j)))) {
    } else if decimal(i).len() < decimal(j).len() {
        lemma_apart_shorter(s, pre, w, i, j);
    } else if decimal(j).len() < decimal(i).len() {
        lemma_apart_shorter(s, pre, w, j, i);
    } else {
        assert forall|k: int| 0 <= k < decimal(i).len() implies decimal(i)[k] == decimal(j)[k] by {
            lemma_extends_index(s, pre + (w + decimal(i)), m + k);
            lemma_extends_index(s, pre + (w + decimal(j)), m + k);
        }
        assert(decimal(i) =~= decimal(j));
        lemma_decimal_injective(i, j);
    }
}

proof fn lemma_concat_distinct(x: Seq<Seq<char>>, y: Seq<Seq<char>>, path: Seq<Seq<char>>)
    requires
        distinct_under(x, path),
        distinct_under(y, path),
        forall|i: int, j: int| 0 <= i < x.len() && 0 <= j < y.len() ==> x[i] != y[j],
    ensures
        distinct_under(x + y, path),
{
    let z = x + y;
    assert forall|k: int| 0 <= k < z.len() implies lies_under(#[trigger] z[k], path) by {
        if k < x.len() {
            assert(z[k] == x[k]);
        } else {
            assert(z[k] == y[k - x.len()]);
        }
    }
    assert forall|a: int, b: int| 0 <= a < z.len() && 0 <= b < z.len() && a != b implies z[a] != z[b] by {
        if a < x.len() && b < x.len() {
        } else if a >= x.len() && b >= x.len() {
            assert(z[a] == y[a - x.len()]);
            assert(z[b] == y[b - x.len()]);
        } else if a < x.len() {
            assert(z[b] == y[b - x.len()]);
        } else {
            assert(z[a] == y[a - x.len()]);
        }
    }
}

/// Wrapping `x`, a wrapping of `e` that is not itself a capture, in a
/// capture at `path` (unless it is a callee) adds that one path, first.
proof fn lemma_wrap_step(x: ExprV, e: ExprV, path: Seq<Seq<char>>, in_callee: bool, ps: Seq<Seq<char>>)
    requires
        !is_capture(x),
        added_captures(x, e) == Some(ps),
        distinct_under(ps, path),
        forall|k: int| 0 <= k < ps.len() ==> #[trigger] ps[k] != join(path, "/"@),
    ensures
        added_captures(capt(x, path, in_callee), e) == Some(
            if in_callee {
                ps
            } else {
                seq![join(path, "/"@)] + ps
            },
        ),
        distinct_under(if in_callee { ps } else { seq![join(path, "/"@)] + ps }, path),
{
    if !in_callee {
        let j = join(path, "/"@);
        let r = capture_call(x, j);
        assert(is_capture(r));
        let head = seq![j];
        assert(head.no_duplicates());
        assert(lies_under(head[0], path));
        lemma_concat_distinct(head, ps, path);
    }
}

/// The callee a capture calls is never what capturing makes of a callee.
proof fn lemma_capture_is_not_a_captured_callee(f: ExprV, path: Seq<Seq<char>>)
    ensures
        captured(f, path, true) != member_v(ident_v(RECORDER_INSTANCE_NAME@), CAPTURE_METHOD_NAME@),
{
    if let ExprV::Member { obj, .. } = f {
        let o = captured(*obj, path.push("object"@), false);
        assert(!(o is Ident));
    }
}

/// What the captures added to `e` at `path` are: there are some exactly
/// when `captures_any` says so, and they are distinct and below `path`.
#[verifier::spinoff_prover]
#[verifier::rlimit(100)]
proof fn lemma_added(e: ExprV, path: Seq<Seq<char>>, in_callee: bool)
    ensures
        match added_captures(captured(e, path, in_callee), e) {
            Some(ps) => (ps.len() > 0) == captures_any(e, in_callee) && distinct_under(ps, path),
            None => false,
        },
    decreases e, 0nat,
{
    reveal_strlit("argument");
    reveal_strlit("left");
    reveal_strlit("right");
    reveal_strlit("object");
    reveal_strlit("test");
    reveal_strlit("consequent");
    reveal_strlit("alternate");
    reveal_strlit("callee");
    reveal_strlit("arguments/");
    let j = join(path, "/"@);
    let pre = path_prefix(path);
    match e {
        ExprV::Array { shell, elems } => {
            lemma_elems(elems, path, elems.len());
            let ce = captured_elems(elems, path);
            let ps = elems_added(ce, elems, elems.len())->0;
            lemma_wrap_step(ExprV::Array { shell, elems: ce }, e, path, in_callee, ps);
        },
        ExprV::Unary { shell, arg } => {
            lemma_child(*arg, path, "argument"@, false);
            let a = captured(*arg, path.push("argument"@), false);
            let ps = added_captures(a, *arg)->0;
            lemma_wrap_step(ExprV::Unary { shell, arg: Box::new(a) }, e, path, in_callee, ps);
        },
        ExprV::Bin { shell, left, right } => {
            lemma_child(*left, path, "left"@, false);
            lemma_child(*right, path, "right"@, false);
            let l = captured(*left, path.push("left"@), false);
            let r = captured(*right, path.push("right"@), false);
            let pl = added_captures(l, *left)->0;
            let pr = added_captures(r, *right)->0;
            assert forall|a: int, b: int| 0 <= a < pl.len() && 0 <= b < pr.len() implies pl[a] != pr[b] by {
                lemma_apart_first(pl[a], pre, "left"@, "right"@);
            }
            lemma_concat_distinct(pl, pr, path);
            let ps = pl + pr;
            assert forall|k: int| 0 <= k < ps.len() implies #[trigger] ps[k] != j by {
                if k < pl.len() {
                    assert(ps[k] == pl[k]);
                } else {
                    assert(ps[k] == pr[k - pl.len()]);
                }
            }
            lemma_wrap_step(ExprV::Bin { shell, left: Box::new(l), right: Box::new(r) }, e, path, in_callee, ps);
        },
        ExprV::Assign { target, right } => {
            lemma_child(*right, path, "right"@, false);
            let r = captured(*right, path.push("right"@), false);
            let ps = added_captures(r, *right)->0;
            lemma_wrap_step(ExprV::Assign { target, right: Box::new(r) }, e, path, in_callee, ps);
        },
        ExprV::Member { shell, obj, prop } => {
            lemma_child(*obj, path, "object"@, false);
            let o = captured(*obj, path.push("object"@), false);
            let ps = added_captures(o, *obj)->0;
            lemma_wrap_step(ExprV::Member { shell, obj: Box::new(o), prop }, e, path, in_callee, ps);
        },
        ExprV::Cond { shell, test, cons, alt } => {
            lemma_child(*test, path, "test"@, false);
            lemma_child(*cons, path, "consequent"@, false);
            lemma_child(*alt, path, "alternate"@, false);
            let pt = added_captures(captured(*test, path.push("test"@), false), *test)->0;
            let pc = added_captures(captured(*cons, path.push("consequent"@), false), *cons)->0;
            let pa = added_captures(captured(*alt, path.push("alternate"@), false), *alt)->0;
            assert forall|a: int, b: int| 0 <= a < pt.len() && 0 <= b < pc.len() implies pt[a] != pc[b] by {
                lemma_apart_first(pt[a], pre, "test"@, "consequent"@);
            }
            lemma_concat_distinct(pt, pc, path);
            let ptc = pt + pc;
            assert forall|a: int, b: int| 0 <= a < ptc.len() && 0 <= b < pa.len() implies ptc[a] != pa[b] by {
                if a < pt.len() {
                    assert(ptc[a] == pt[a]);
                    lemma_apart_first(pt[a], pre, "test"@, "alternate"@);
                } else {
                    assert(ptc[a] == pc[a - pt.len()]);
                    lemma_apart_first(pc[a - pt.len()], pre, "consequent"@, "alternate"@);
                }
            }
            lemma_concat_distinct(ptc, pa, path);
        },
        ExprV::Call(c) => {
            lemma_args(c.args, path, c.args.len());
            let ca = captured_args(c.args, path);
            let pargs = args_added(ca, c.args, ca.len())->0;
            let callee = match c.callee {
                CalleeV::Expr(f) => CalleeV::Expr(Box::new(captured(*f, path.push("callee"@), true))),
                CalleeV::Other(h) => CalleeV::Other(h),
            };
            let pf = match c.callee {
                CalleeV::Expr(f) => added_captures(captured(*f, path.push("callee"@), true), *f)->0,
                CalleeV::Other(_) => Seq::empty(),
            };
            if let CalleeV::Expr(f) = c.callee {
                lemma_child(*f, path, "callee"@, true);
                lemma_capture_is_not_a_captured_callee(*f, path.push("callee"@));
            }
            assert forall|a: int, b: int| 0 <= a < pf.len() && 0 <= b < pargs.len() implies pf[a] != pargs[b] by {
                lemma_apart_start(pf[a], pre, "callee"@, "arguments/"@);
            }
            lemma_concat_distinct(pf, pargs, path);
            let ps = pf + pargs;
            assert forall|k: int| 0 <= k < ps.len() implies #[trigger] ps[k] != j by {
                if k < pf.len() {
                    assert(ps[k] == pf[k]);
                } else {
                    assert(ps[k] == pargs[k - pf.len()]);
                }
            }
            let x = ExprV::Call(CallExprV { shell: c.shell, callee, args: ca });
            lemma_wrap_step(x, e, path, in_callee, ps);
            assert(captured(e, path, in_callee) == capt(x, path, in_callee));
            assert(args_capture(c.args) == some_arg_captures(c.args, c.args.len() as int));
        },
        ExprV::New { shell, callee, args } => {
            lemma_child(*callee, path, "callee"@, true);
            let f = captured(*callee, path.push("callee"@), true);
            let pf = added_captures(f, *callee)->0;
            let a = match args {
                Some(a) => Some(captured_args(a, path)),
                None => None,
            };
            let pargs = match args {
                Some(a) => args_added(captured_args(a, path), a, a.len())->0,
                None => Seq::empty(),
            };
            if let Some(a) = args {
                lemma_args(a, path, a.len());
                assert forall|x: int, y: int| 0 <= x < pf.len() && 0 <= y < pargs.len() implies pf[x] != pargs[y] by {
                    lemma_apart_start(pf[x], pre, "callee"@, "arguments/"@);
                }
            }
            lemma_concat_distinct(pf, pargs, path);
            let ps = pf + pargs;
            assert forall|k: int| 0 <= k < ps.len() implies #[trigger] ps[k] != j by {
                if k < pf.len() {
                    assert(ps[k] == pf[k]);
                } else {
                    assert(ps[k] == pargs[k - pf.len()]);
                }
            }
            lemma_wrap_step(ExprV::New { shell, callee: Box::new(f), args: a }, e, path, in_callee, ps);
            assert(captured(e, path, in_callee) == capt(ExprV::New { shell, callee: Box::new(f), args: a }, path, in_callee));
            if let Some(a) = args {
                assert(args_capture(a) == some_arg_captures(a, a.len() as int));
            }
        },
        ExprV::Sequence { shell, exprs } => {
            lemma_exprs(exprs, path, exprs.len());
        },
        ExprV::Ident(_) => {
            lemma_wrap_step(e, e, path, in_callee, Seq::empty());
        },
        ExprV::SuperProp(_) => {
            lemma_wrap_step(e, e, path, in_callee, Seq::empty());
        },
        ExprV::Paren { expr, .. } => {
            lemma_added(*expr, path, false);
        },
        ExprV::TsAs { expr, .. } => {
            lemma_added(*expr, path, false);
        },
        ExprV::TsInstantiation { expr, .. } => {
            lemma_added(*expr, path, false);
        },
        _ => {},
    }
}

/// [`lemma_added`] for the child `x` of a node at `path`, under the segment `seg`.
proof fn lemma_child(x: ExprV, path: Seq<Seq<char>>, seg: Seq<char>, in_callee: bool)
    requires
        seg.len() > 0,
    ensures
        match added_captures(captured(x, path.push(seg), in_callee), x) {
            Some(ps) => {
                &&& (ps.len() > 0) == captures_any(x, in_callee)
                &&& distinct_under(ps, path)
                &&& forall|k: int|
                    0 <= k < ps.len() ==> extends(#[trigger] ps[k], path_prefix(path) + seg) && ps[k]
                        != join(path, "/"@)
            },
            None => false,
        },
    decreases x, 1nat,
{
    lemma_added(x, path.push(seg), in_callee);
    lemma_join_push(path, seg);
    let ps = added_captures(captured(x, path.push(seg), in_callee), x)->0;
    assert forall|k: int| 0 <= k < ps.len() implies lies_under(#[trigger] ps[k], path) && extends(
        ps[k],
        path_prefix(path) + seg,
    ) && ps[k] != join(path, "/"@) by {
        assert(lies_under(ps[k], path.push(seg)));
        lemma_child_under(ps[k], path, seg);
    }
}

/// The captures added to the first `n` items of a list at `path` whose
/// segments are `w` followed by the item's number: no two the same, each
/// below `path` but not `path` itself, each starting with the list's `w`, and
/// none below an item numbered `n` or more.
pub open spec fn list_paths_ok(ps: Seq<Seq<char>>, path: Seq<Seq<char>>, w: Seq<char>, n: nat) -> bool {
    &&& distinct_under(ps, path)
    &&& forall|k: int|
        #![trigger ps[k]]
        0 <= k < ps.len() ==> ps[k] != join(path, "/"@) && starts(ps[k], path_prefix(path) + w)
            && forall|m: nat| n <= m ==> !#[trigger] extends(ps[k], path_prefix(path) + (w + decimal(m)))
}

/// One step of a list: the paths `prev` of the first `i` items and `last`
/// of item `i`, which all lie below item `i`, make up those of the first
/// `i + 1` items.
proof fn lemma_list_step(
    prev: Seq<Seq<char>>,
    last: Seq<Seq<char>>,
    path: Seq<Seq<char>>,
    w: Seq<char>,
    i: nat,
)
    requires
        list_paths_ok(prev, path, w, i),
        distinct_under(last, path),
        forall|k: int|
            0 <= k < last.len() ==> #[trigger] extends(last[k], path_prefix(path) + (w + decimal(i)))
                && last[k] != join(path, "/"@),
    ensures
        list_paths_ok(prev + last, path, w, i + 1),
{
    let pre = path_prefix(path);
    assert forall|a: int, b: int| 0 <= a < prev.len() && 0 <= b < last.len() implies prev[a] != last[b] by {
        assert(!extends(prev[a], pre + (w + decimal(i))));
    }
    lemma_concat_distinct(prev, last, path);
    let ps = prev + last;
    assert forall|k: int| #![trigger ps[k]] 0 <= k < ps.len() implies ps[k] != join(path, "/"@) && starts(
        ps[k],
        pre + w,
    ) && forall|m: nat| i + 1 <= m ==> !#[trigger] extends(ps[k], pre + (w + decimal(m))) by {
        if k < prev.len() {
            assert(ps[k] == prev[k]);
        } else {
            let s = ps[k];
            assert(s == last[k - prev.len()]);
            lemma_extends_starts(s, pre + (w + decimal(i)));
            assert((pre + (w + decimal(i))).take((pre + w).len() as int) =~= pre + w);
            assert(s.take((pre + w).len() as int) =~= pre + w);
            assert forall|m: nat| i + 1 <= m implies !#[trigger] extends(s, pre + (w + decimal(m))) by {
                lemma_apart_indexed(s, pre, w, i, m);
            }
        }
    }
}

/// The captures added to the first `n` arguments of a call at `path`.
proof fn lemma_args(args: Seq<ExprOrSpreadV>, path: Seq<Seq<char>>, n: nat)
    requires
        n <= args.len(),
    ensures
        match args_added(captured_args(args, path), args, n) {
            Some(ps) => (ps.len() > 0) == some_arg_captures(args, n as int) && list_paths_ok(
                ps,
                path,
                "arguments/"@,
                n,
            ),
            None => false,
        },
    decreases args, n,
{
    let ca = captured_args(args, path);
    if n > 0 {
        let i = n - 1;
        lemma_args(args, path, (n - 1) as nat);
        let prev = args_added(ca, args, (n - 1) as nat)->0;
        let seg = argument_segment(i);
        lemma_decimal_has_no_slash(i as nat);
        lemma_child(*args[i].expr, path, seg, false);
        assert(ca[i].expr == Box::new(captured(*args[i].expr, path.push(seg), false)));
        let last = added_captures(captured(*args[i].expr, path.push(seg), false), *args[i].expr)->0;
        lemma_list_step(prev, last, path, "arguments/"@, i as nat);
        if captures_any(*args[i].expr, false) {
            // names the trigger term of the `exists` in `some_arg_captures(args, n)`, so that this index is its witness
            assert(args[i] == args[i]);
        }
        assert(some_arg_captures(args, n as int) == (some_arg_captures(args, i) || captures_any(
            *args[i].expr,
            false,
        )));
    }
}

/// The captures added to the first `n` elements of an array literal at `path`.
proof fn lemma_elems(elems: Seq<Option<ExprOrSpreadV>>, path: Seq<Seq<char>>, n: nat)
    requires
        n <= elems.len(),
    ensures
        match elems_added(captured_elems(elems, path), elems, n) {
            Some(ps) => (ps.len() > 0) == some_elem_captures(elems, n as int) && list_paths_ok(
                ps,
                path,
                "elements/"@,
                n,
            ),
            None => false,
        },
    decreases elems, n,
{
    let ce = captured_elems(elems, path);
    if n > 0 {
        let i = n - 1;
        lemma_elems(elems, path, (n - 1) as nat);
        let prev = elems_added(ce, elems, (n - 1) as nat)->0;
        if let Some(a) = elems[i] {
            let seg = element_segment(i);
            lemma_decimal_has_no_slash(i as nat);
            assert(decreases_to!(elems => elems[i]));
            lemma_child(*a.expr, path, seg, false);
            let last = added_captures(captured(*a.expr, path.push(seg), false), *a.expr)->0;
            lemma_list_step(prev, last, path, "elements/"@, i as nat);
            if captures_any(*a.expr, false) {
                // names the trigger term of the `exists` in `some_elem_captures(elems, n)`, so that this index is its witness
                assert(elems[i] == elems[i]);
            }
        } else {
            lemma_list_step(prev, Seq::empty(), path, "elements/"@, i as nat);
            assert(prev + Seq::empty() =~= prev);
        }
        assert(some_elem_captures(elems, n as int) == (some_elem_captures(elems, i) || match elems[i] {
            Some(a) => captures_any(*a.expr, false),
            None => false,
        }));
    }
}

/// The captures added to the first `n` expressions of a comma sequence at `path`.
proof fn lemma_exprs(exprs: Seq<ExprV>, path: Seq<Seq<char>>, n: nat)
    requires
        n <= exprs.len(),
    ensures
        match exprs_added(captured_exprs(exprs, path), exprs, n) {
            Some(ps) => (ps.len() > 0) == some_expr_captures(exprs, n as int) && list_paths_ok(
                ps,
                path,
                "expressions/"@,
                n,
            ),
            None => false,
        },
    decreases exprs, n,
{
    let ce = captured_exprs(exprs, path);
    if n > 0 {
        let i = n - 1;
        lemma_exprs(exprs, path, (n - 1) as nat);
        let prev = exprs_added(ce, exprs, (n - 1) as nat)->0;
        let seg = expression_segment(i);
        lemma_decimal_has_no_slash(i as nat);
        lemma_child(exprs[i], path, seg, false);
        let last = added_captures(captured(exprs[i], path.push(seg), false), exprs[i])->0;
        lemma_list_step(prev, last, path, "expressions/"@, i as nat);
        if captures_any(exprs[i], false) {
            // names the trigger term of the `exists` in `some_expr_captures(exprs, n)`, so that this index is its witness
            assert(exprs[i] == exprs[i]);
        }
        assert(some_expr_captures(exprs, n as int) == (some_expr_captures(exprs, i) || captures_any(
            exprs[i],
            false,
        )));
    }
}

/// Capturing only wraps, whatever the expression: what `capture_expr` gives
/// back for `e` is `e` with some of its sub-expressions wrapped in captures
/// and nothing else changed, so no sub-expression is dropped, moved or
/// rewritten (operators, parentheses, holes of array literals, spreads and
/// spans are all kept).
pub proof fn lemma_capture_only_wraps(e: ExprV, path: Seq<Seq<char>>, in_callee: bool)
    ensures
        added_captures(captured(e, path, in_callee), e) is Some,
{
    lemma_added(e, path, in_callee);
}

/// Capturing adds a capture exactly when it reports that something was
/// worth capturing, whatever the expression.  With the contract of
/// `capture_expr`, which raises the visitor's two flags exactly when
/// `captures_any` holds, this says that the flags are raised exactly when
/// the number of captures added is not zero.
pub proof fn lemma_capture_added_iff_flagged(e: ExprV, path: Seq<Seq<char>>, in_callee: bool)
    ensures
        match added_captures(captured(e, path, in_callee), e) {
            Some(ps) => (ps.len() > 0) == captures_any(e, in_callee),
            None => false,
        },
{
    lemma_added(e, path, in_callee);
}

/// The captures that capturing adds to one expression have pairwise
/// different paths, each the path `path` of the expression or a path below
/// it: each recorded value is found again by its own path.
pub proof fn lemma_capture_paths_distinct(e: ExprV, path: Seq<Seq<char>>, in_callee: bool)
    ensures
        match added_captures(captured(e, path, in_callee), e) {
            Some(ps) => distinct_under(ps, path),
            None => false,
        },
{
    lemma_added(e, path, in_callee);
}

/// The path under which the capture `r` records its value, when `r` is a capture.
pub open spec fn capture_path_of(r: ExprV) -> Option<Seq<char>> {
    if is_capture(r) {
        match r {
            ExprV::Call(c) => match *c.args[1].expr {
                ExprV::Str(s) => Some(s.value),
                _ => None,
            },
            _ => None,
        }
    } else {
        None
    }
}

/// Whether `e` has a value worth printing: an identifier, a `super`
/// property, a property access, a call, a `new`, a unary, binary or
/// assignment expression, or an array literal.
pub open spec fn has_printable_value(e: ExprV) -> bool {
    ||| e is Ident
    ||| e is SuperProp
    ||| e is Member
    ||| e is Call
    ||| e is New
    ||| e is Unary
    ||| e is Bin
    ||| e is Assign
    ||| e is Array
}

/// Every expression with a value worth printing that is not a callee is
/// itself captured, at its own path, whatever its parts are: for instance
/// `items.filter(f).length` becomes `_rec._capt(.., "arguments/0")`, so that
/// the asserted value itself is shown.
pub proof fn lemma_values_captured_at_own_path(e: ExprV, path: Seq<Seq<char>>)
    requires
        has_printable_value(e),
    ensures
        capture_path_of(captured(e, path, false)) == Some(join(path, "/"@)),
{
    let r = captured(e, path, false);
    match e {
        ExprV::Array { shell, elems } => {
            assert(is_capture(capture_call(ExprV::Array { shell, elems: captured_elems(elems, path) }, join(path, "/"@))));
        },
        ExprV::Unary { shell, arg } => {
            let a = captured(*arg, path.push("argument"@), false);
            assert(is_capture(capture_call(ExprV::Unary { shell, arg: Box::new(a) }, join(path, "/"@))));
        },
        ExprV::Bin { shell, left, right } => {
            let l = captured(*left, path.push("left"@), false);
            let rr = captured(*right, path.push("right"@), false);
            assert(is_capture(capture_call(ExprV::Bin { shell, left: Box::new(l), right: Box::new(rr) }, join(path, "/"@))));
        },
        ExprV::Assign { target, right } => {
            let rr = captured(*right, path.push("right"@), false);
            assert(is_capture(capture_call(ExprV::Assign { target, right: Box::new(rr) }, join(path, "/"@))));
        },
        ExprV::Member { shell, obj, prop } => {
            let o = captured(*obj, path.push("object"@), false);
            assert(is_capture(capture_call(ExprV::Member { shell, obj: Box::new(o), prop }, join(path, "/"@))));
        },
        ExprV::Call(c) => {
            let callee = match c.callee {
                CalleeV::Expr(f) => CalleeV::Expr(Box::new(captured(*f, path.push("callee"@), true))),
                CalleeV::Other(h) => CalleeV::Other(h),
            };
            let x = ExprV::Call(CallExprV { shell: c.shell, callee, args: captured_args(c.args, path) });
            assert(is_capture(capture_call(x, join(path, "/"@))));
        },
        ExprV::New { shell, callee, args } => {
            let f = captured(*callee, path.push("callee"@), true);
            let a = match args {
                Some(a) => Some(captured_args(a, path)),
                None => None,
            };
            assert(is_capture(capture_call(ExprV::New { shell, callee: Box::new(f), args: a }, join(path, "/"@))));
        },
        _ => {
            assert(is_capture(capture_call(e, join(path, "/"@))));
        },
    }
}

} // verus!
