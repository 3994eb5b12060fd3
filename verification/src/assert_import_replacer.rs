//! Points imports of `assert` at `power-assert` instead.
use vstd::prelude::*;

use crate::ast::{
    CallExpr, CallExprV, Callee, CalleeV, Expr, ExprOrSpread, ExprOrSpreadV, ExprV, ImportDecl, StrLit,
    StrLitV,
};
use crate::text::string_is;

verus! {

/// The module source `s` once imports of `assert` point at `power-assert`:
/// the text `assert` becomes `power-assert` at the same place, to be
/// printed afresh; any other source stays.
pub open spec fn replaced_source(s: StrLitV) -> StrLitV {
    if s.value == "assert"@ {
        StrLitV { span: s.span, value: "power-assert"@, raw: None }
    } else {
        s
    }
}

/// Whether `c` is a call `require(..)`.
pub open spec fn is_require_call(c: CallExprV) -> bool {
    c.callee matches CalleeV::Expr(f) && *f matches ExprV::Ident(i) && i.sym == "require"@
}

/// The call `c` once `require("assert")` points at `power-assert`: the first
/// argument of a call of `require`, when it is a string literal, is replaced
/// as an import source is; everything else stays.
pub open spec fn replaced_require(c: CallExprV) -> CallExprV {
    if is_require_call(c) && c.args.len() > 0 && *c.args[0].expr is Str {
        let a = c.args[0];
        CallExprV {
            args: c.args.update(
                0,
                ExprOrSpreadV {
                    spread: a.spread,
                    expr: Box::new(ExprV::Str(replaced_source(a.expr->Str_0))),
                },
            ),
            ..c
        }
    } else {
        c
    }
}

/// Replaces imports of `assert` with imports of `power-assert`, both
/// `import .. from "assert"` and `require("assert")`.
pub struct ReplaceImportsVisitor;

/// `s` replaced as an import source.
fn replace_source(s: &StrLit) -> (r: Option<StrLit>)
    ensures
        match r {
            Some(n) => s@.value == "assert"@ && n@ == replaced_source(s@),
            None => s@.value != "assert"@,
        },
{
    if string_is(&s.value, "assert") {
        Some(StrLit { span: s.span, value: String::from_str("power-assert"), raw: None })
    } else {
        None
    }
}

impl ReplaceImportsVisitor {
    /// At an import declaration: `import x from "assert"` becomes `import x from "power-assert"`.
    pub fn visit_mut_import_decl(&mut self, node: &mut ImportDecl)
        ensures
            final(node)@ == replaced_source(old(node)@),
    {
        if let Some(n) = replace_source(&node.src) {
            node.src = n;
        }
    }

    /// At a call: `require("assert")` becomes `require("power-assert")`.
    /// Only this call is rewritten here; the walk that calls this method
    /// visits every call of the program, those nested in the callee and the
    /// arguments of this one (such as `wrap(require("assert"))`) included.
    pub fn visit_mut_call_expr(&mut self, node: &mut CallExpr)
        ensures
            final(node)@ == replaced_require(old(node)@),
    {
        let is_require = match &node.callee {
            Callee::Expr(f) => match &**f {
                Expr::Ident(id) => {
                    assert((**f)@ == ExprV::Ident(id@));
                    string_is(&id.sym, "require")
                },
                _ => {
                    assert(!((**f)@ is Ident));
                    false
                },
            },
            Callee::Other(_) => false,
        };
        if !is_require || node.args.len() == 0 {
            return;
        }
        let ghost a0 = node@.args[0];
        assert(a0 == node.args@[0]@);
        let replacement = match &*node.args[0].expr {
            Expr::Str(s) => {
                assert(*a0.expr == ExprV::Str(s@));
                replace_source(s)
            },
            _ => {
                assert(!(*a0.expr is Str));
                None
            },
        };
        if let Some(n) = replacement {
            let ghost before = node@;
            let spread = node.args[0].spread;
            node.args.set(0, ExprOrSpread { spread, expr: Box::new(Expr::Str(n)) });
            proof {
                let want = replaced_require(before).args;
                assert forall|k: int| 0 <= k < node@.args.len() implies node@.args[k] == want[k] by {
                    if k != 0 {
                        assert(node.args@[k] == old(node).args@[k]);
                    }
                }
                assert(node@.args =~= want);
            }
        } else {
            assert(node@.args.update(0, a0) =~= node@.args);
        }
    }
}


/// Replacing imports leaves no import source that reads `assert`, and
/// replacing twice is replacing once.
pub proof fn lemma_replacement_is_final(s: StrLitV, c: CallExprV)
    ensures
        replaced_source(s).value != "assert"@,
        replaced_source(replaced_source(s)) == replaced_source(s),
        replaced_require(replaced_require(c)) == replaced_require(c),
{
    reveal_strlit("assert");
    reveal_strlit("power-assert");
    assert("power-assert"@.len() != "assert"@.len());
    let r = replaced_require(c);
    if is_require_call(c) && c.args.len() > 0 && *c.args[0].expr is Str {
        let a = r.args[0];
        assert(a.expr->Str_0 == replaced_source(c.args[0].expr->Str_0));
        assert(r.args.update(0, ExprOrSpreadV {
            spread: a.spread,
            expr: Box::new(ExprV::Str(replaced_source(a.expr->Str_0))),
        }) =~= r.args);
    }
}

/// Only the module `assert` itself is pointed at `power-assert`: an import
/// source, or the argument of a `require` call, changes only when it reads
/// exactly `assert`, and then it reads `power-assert`; any other source,
/// such as `assert/strict`, and any call of another function, stay as they are.
pub proof fn lemma_only_assert_is_replaced(s: StrLitV, c: CallExprV)
    ensures
        replaced_source(s) != s ==> s.value == "assert"@,
        s.value == "assert"@ ==> replaced_source(s).value == "power-assert"@,
        replaced_require(c) != c ==> {
            &&& c.callee matches CalleeV::Expr(f) && *f matches ExprV::Ident(i) && i.sym == "require"@
            &&& c.args.len() > 0
            &&& *c.args[0].expr matches ExprV::Str(a) && a.value == "assert"@
            &&& replaced_require(c).args.len() == c.args.len()
            &&& replaced_require(c).args[0].expr->Str_0.value == "power-assert"@
            &&& forall|k: int| 1 <= k < c.args.len() ==> #[trigger] replaced_require(c).args[k] == c.args[k]
            &&& replaced_require(c).callee == c.callee
        },
{
    if is_require_call(c) && c.args.len() > 0 && *c.args[0].expr is Str {
        let a = c.args[0];
        if a.expr->Str_0.value != "assert"@ {
            assert(ExprV::Str(a.expr->Str_0) == *a.expr);
            assert(c.args.update(0, ExprOrSpreadV {
                spread: a.spread,
                expr: Box::new(ExprV::Str(replaced_source(a.expr->Str_0))),
            }) =~= c.args);
        }
    }
}

} // verus!
