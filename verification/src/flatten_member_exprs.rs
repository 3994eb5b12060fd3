//! The dotted name of a chain of property accesses.
use vstd::prelude::*;

use crate::ast::{Expr, ExprV, MemberProp, MemberPropV};

verus! {

/// The dotted name that `e` spells, such as `assert.equal` for `assert.equal`:
/// an identifier, or a property access by name on an expression that spells one.
pub open spec fn dotted_name(e: ExprV) -> Option<Seq<char>>
    decreases e,
{
    match e {
        ExprV::Ident(i) => Some(i.sym),
        ExprV::Member { obj, prop: MemberPropV::Ident(p), .. } => match dotted_name(*obj) {
            Some(s) => Some(s + seq!['.'] + p),
            None => None,
        },
        _ => None,
    }
}

/// `"." + parts.last() + ... + "." + parts[0]`: the names met on the way down, in source order.
pub open spec fn dotted_suffix(parts: Seq<Seq<char>>) -> Seq<char>
    decreases parts.len(),
{
    if parts.len() == 0 {
        Seq::empty()
    } else {
        seq!['.'] + parts.last() + dotted_suffix(parts.drop_last())
    }
}

proof fn lemma_suffix_push(parts: Seq<Seq<char>>, p: Seq<char>)
    ensures
        dotted_suffix(parts.push(p)) == seq!['.'] + p + dotted_suffix(parts),
{
    assert(parts.push(p).drop_last() =~= parts);
}

/// Flattens a chain of member expressions into one name, e.g. `"assert.eq"`.
pub fn flatten_member_exprs(expr: &Expr) -> (r: Option<String>)
    ensures
        match r {
            Some(s) => dotted_name(expr@) == Some(s@),
            None => dotted_name(expr@) is None,
        },
{
    let mut parts: Vec<&String> = Vec::new();
    let mut lhs: &Expr = expr;
    loop
        invariant_except_break
            dotted_name(expr@) == match dotted_name(lhs@) {
                Some(s) => Some(s + dotted_suffix(parts@.map_values(|p: &String| p@))),
                None => None::<Seq<char>>,
            },
        ensures
            parts@.len() > 0,
            dotted_name(expr@) == Some(
                parts@.last()@ + dotted_suffix(parts@.drop_last().map_values(|p: &String| p@)),
            ),
        decreases lhs,
    {
        let ghost before_parts = parts@;
        let ghost before = parts@.map_values(|p: &String| p@);
        match lhs {
            Expr::Ident(id) => {
                parts.push(&id.sym);
                assert(parts@.drop_last() =~= before_parts);
                assert(parts@.drop_last().map_values(|p: &String| p@) =~= before);
                break ;
            },
            Expr::Member { obj, prop, .. } => {
                match prop {
                    MemberProp::Ident(sym) => {
                        parts.push(sym);
                        proof {
                            assert(parts@.map_values(|p: &String| p@) =~= before.push(sym@));
                            lemma_suffix_push(before, sym@);
                        }
                        lhs = &**obj;
                    },
                    MemberProp::Other(_) => {
                        return None;
                    },
                }
            },
            _ => {
                return None;
            },
        }
    }
    if parts.len() == 1 {
        let only = parts[0].clone();
        assert(parts@.drop_last().map_values(|p: &String| p@) =~= Seq::<Seq<char>>::empty());
        return Some(only);
    }
    // Join the names in source order: the last one met is the leftmost.
    let ghost views = parts@.map_values(|p: &String| p@);
    let n: usize = parts.len();
    let mut out = parts[n - 1].clone();
    let mut j: usize = n - 1;
    while j > 0
        invariant
            n == parts@.len(),
            n >= 1,
            j <= n - 1,
            views == parts@.map_values(|p: &String| p@),
            out@ + dotted_suffix(views.take(j as int)) == views[n - 1] + dotted_suffix(
                views.take(n - 1),
            ),
        decreases j,
    {
        proof {
            assert(views.take(j as int).drop_last() =~= views.take(j - 1));
            assert(views.take(j as int).last() == views[j - 1]);
        }
        out.append(".");
        out.append(parts[j - 1].as_str());
        proof {
            reveal_strlit(".");
        }
        j = j - 1;
    }
    proof {
        assert(views.take(0) =~= Seq::<Seq<char>>::empty());
        assert(parts@.drop_last().map_values(|p: &String| p@) =~= views.take(n - 1));
        assert(out@ =~= out@ + dotted_suffix(views.take(0)));
    }
    Some(out)
}

} // verus!
