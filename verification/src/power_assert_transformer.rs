//! The rewrite of plain assertion calls into power-assert calls.
//!
//! The host walks the syntax tree; at each node that matters it hands the
//! node, or the part of it that this transform reads, to the visitor below,
//! which decides what becomes of it.
use vstd::prelude::*;

use crate::ast::{
    stmts_view, ArrowBody, ArrowBodyV, CallExpr, CallExprV, CalleeV, Expr, ExprV, ModuleItem, ModuleItemV,
    Program, ProgramV, Stmt, StmtV,
};
use crate::flatten_member_exprs::{dotted_name, flatten_member_exprs};
use crate::power_assert_recorder::{
    new_power_assert_recorder_stmt, power_assert_recorder_definition, record_call,
    recorder_class, recorder_instance_stmt, wrap_in_record, RecorderContext,
};
use crate::text::{string_is, strings_view};
use capture_expr::{captured, captures_any};

pub mod capture_expr;
pub mod capture_laws;

verus! {

/// The state of one pass over a program.
pub struct PowerAssertTransformerVisitor {
    /// Whether any value was captured anywhere in the program so far.
    pub found_assertion: bool,
    /// Whether the scope being visited needs a recorder instance.
    pub needs_recorder: bool,
    /// The name of the file, as reported in each recorded assertion.
    pub file_name: String,
    /// Whether the scope being visited is async, a generator, or both.
    pub recorder_context: RecorderContext,
}

impl PowerAssertTransformerVisitor {
    /// A visitor for a program in the file `file_name`, which has seen nothing yet.
    pub fn new(file_name: String) -> (v: Self)
        ensures
            v.consistent(),
            !v.found_assertion,
            !v.needs_recorder,
            v.file_name == file_name,
            !v.recorder_context.is_async,
            !v.recorder_context.is_generator,
    {
        PowerAssertTransformerVisitor {
            found_assertion: false,
            needs_recorder: false,
            file_name,
            recorder_context: RecorderContext { is_async: false, is_generator: false },
        }
    }
}


/// Whether the call `c` calls a function named `assert`.
pub open spec fn is_assertion(c: CallExprV) -> bool {
    match c.callee {
        CalleeV::Expr(f) => dotted_name(*f) == Some("assert"@),
        CalleeV::Other(_) => false,
    }
}

/// What the visitor does at a call.
#[derive(Clone, Copy, Debug, PartialEq, Eq)]
pub enum CallVisit {
    /// Not an assertion: visit what is inside the call.
    VisitChildren,
    /// An assertion with one argument: transform that argument, and visit nothing inside it.
    TransformArgument,
    /// An assertion with some other number of arguments: leave it, and visit nothing inside it.
    Skip,
}

/// The path of the argument of an assertion.
pub open spec fn argument_path() -> Seq<Seq<char>> {
    seq!["arguments/0"@]
}

/// What becomes of the argument `arg` of an assertion, given the answers of
/// the source map: the snippet of the whole assertion call and the indices,
/// counted from 0, of the lines it spans; the record reports the first of
/// them counted from 1.  An argument with nothing worth capturing is left as
/// it is.  The first part of the result is the new argument, the second the
/// error, if any.
pub open spec fn transformed_argument(
    arg: ExprV,
    file_name: Seq<char>,
    ctx: RecorderContext,
    source_code: Option<Seq<char>>,
    lines: Option<Seq<usize>>,
) -> (ExprV, Option<Seq<char>>) {
    let cap = captured(arg, argument_path(), false);
    if !captures_any(arg, false) {
        (arg, None)
    } else {
        match source_code {
            None => (ExprV::Invalid, Some("Failed to get source_code for expr"@)),
            Some(src) => match lines {
                None => (ExprV::Invalid, Some("Failed to get line for expr"@)),
                Some(ls) => if ls.len() == 0 {
                    (ExprV::Invalid, Some("Failed to get line for expr: empty lines list"@))
                } else {
                    (record_call(cap, file_name, src, (ls[0] + 1) as nat, ctx), None)
                },
            },
        }
    }
}

/// What the visitor restores when it leaves a function.
#[derive(Clone, Copy, Debug, PartialEq, Eq)]
pub struct SavedScope {
    pub needs_recorder: bool,
    pub recorder_context: RecorderContext,
}

/// Where a statement goes that is put at the top of a module: right after
/// the imports that lead it, before any other item, so before any code that
/// could run and before any export.
pub open spec fn module_top(items: Seq<ModuleItemV>) -> int
    decreases items.len(),
{
    if items.len() > 0 && items[0] is Import {
        1 + module_top(items.drop_first())
    } else {
        0
    }
}

/// `items` with the statement `s` put at the top.
pub open spec fn prepend_to_module(items: Seq<ModuleItemV>, s: StmtV) -> Seq<ModuleItemV> {
    let pos = module_top(items);
    items.insert(pos, ModuleItemV::Stmt(s))
}

/// The program `p` with the statement `s` put at the top.
pub open spec fn prepend_to_program(p: ProgramV, s: StmtV) -> ProgramV {
    match p {
        ProgramV::Module(items) => ProgramV::Module(prepend_to_module(items, s)),
        ProgramV::Script(stmts) => ProgramV::Script(stmts.insert(0, s)),
    }
}

/// The program `p` once the recorder class, and when the top level needs
/// one, a recorder instance, are put at its top.
pub open spec fn with_recorder(p: ProgramV, needs_recorder: bool) -> ProgramV {
    let p1 = if needs_recorder {
        prepend_to_program(p, recorder_instance_stmt())
    } else {
        p
    };
    prepend_to_program(p1, StmtV::Class(recorder_class()))
}

proof fn lemma_module_top(items: Seq<ModuleItemV>)
    ensures
        0 <= module_top(items) <= items.len(),
        forall|j: int| 0 <= j < module_top(items) ==> #[trigger] items[j] is Import,
        module_top(items) < items.len() ==> !(items[module_top(items)] is Import),
    decreases items.len(),
{
    if items.len() > 0 && items[0] is Import {
        lemma_module_top(items.drop_first());
        assert forall|j: int| 1 <= j < items.len() implies items[j] == items.drop_first()[j - 1] by {}
    }
}

proof fn lemma_module_top_at(items: Seq<ModuleItemV>, k: int)
    requires
        0 <= k < items.len(),
        !(items[k] is Import),
        forall|j: int| 0 <= j < k ==> #[trigger] items[j] is Import,
    ensures
        module_top(items) == k,
    decreases k,
{
    if k > 0 {
        let rest = items.drop_first();
        assert forall|j: int| 0 <= j < k - 1 implies #[trigger] rest[j] is Import by {
            assert(rest[j] == items[j + 1]);
        }
        lemma_module_top_at(rest, k - 1);
    }
}

/// When a program gets a recorder, the recorder class comes first, right
/// before the recorder instance when the top level needs one; in a module
/// both stand right after the imports that lead it, before every other
/// item; the rest of the program keeps its order.
pub proof fn lemma_recorder_placement(p: ProgramV, needs_recorder: bool)
    ensures
        ({
            let added = if needs_recorder {
                seq![StmtV::Class(recorder_class()), recorder_instance_stmt()]
            } else {
                seq![StmtV::Class(recorder_class())]
            };
            match p {
                ProgramV::Script(stmts) => with_recorder(p, needs_recorder) == ProgramV::Script(
                    added + stmts,
                ),
                ProgramV::Module(items) => {
                    let k = module_top(items);
                    &&& forall|j: int| 0 <= j < k ==> #[trigger] items[j] is Import
                    &&& (k < items.len() ==> !(items[k] is Import))
                    &&& with_recorder(p, needs_recorder) == ProgramV::Module(
                        items.take(k) + added.map_values(|s: StmtV| ModuleItemV::Stmt(s)) + items.skip(k),
                    )
                },
            }
        }),
{
    let class = StmtV::Class(recorder_class());
    let inst = recorder_instance_stmt();
    match p {
        ProgramV::Script(stmts) => {
            if needs_recorder {
                assert(stmts.insert(0, inst).insert(0, class) =~= seq![class, inst] + stmts);
            } else {
                assert(stmts.insert(0, class) =~= seq![class] + stmts);
            }
        },
        ProgramV::Module(items) => {
            lemma_module_top(items);
            let k = module_top(items);
            assert(items.take(k) + items.skip(k) =~= items);
            if needs_recorder {
                let items1 = items.insert(k, ModuleItemV::Stmt(inst));
                assert forall|j: int| 0 <= j < k implies #[trigger] items1[j] is Import by {
                    assert(items1[j] == items[j]);
                }
                lemma_module_top_at(items1, k);
                assert(prepend_to_module(items, inst) == items1);
                assert(prepend_to_module(items1, class) == items1.insert(k, ModuleItemV::Stmt(class)));
                assert(seq![class, inst].map_values(|s: StmtV| ModuleItemV::Stmt(s)) =~= seq![
                    ModuleItemV::Stmt(class),
                    ModuleItemV::Stmt(inst),
                ]);
                assert(items1.insert(k, ModuleItemV::Stmt(class)) =~= items.take(k) + seq![
                    ModuleItemV::Stmt(class),
                    ModuleItemV::Stmt(inst),
                ] + items.skip(k));
            } else {
                assert(seq![class].map_values(|s: StmtV| ModuleItemV::Stmt(s)) =~= seq![
                    ModuleItemV::Stmt(class),
                ]);
                assert(items.insert(k, ModuleItemV::Stmt(class)) =~= items.take(k) + seq![
                    ModuleItemV::Stmt(class),
                ] + items.skip(k));
            }
        },
    }
}

impl PowerAssertTransformerVisitor {
    /// What leaving a function restores of the visitor.
    pub open spec fn scope(&self) -> SavedScope {
        SavedScope { needs_recorder: self.needs_recorder, recorder_context: self.recorder_context }
    }

    /// A scope that needs a recorder instance is in a program that gets the recorder class.
    pub open spec fn consistent(&self) -> bool {
        self.needs_recorder ==> self.found_assertion
    }
}

/// Leaving a function restores what entering it saved, whatever was visited
/// inside: an inner function neither makes its outer scope need a recorder
/// nor changes its context; and since the program only learns of more
/// captures, the visitor stays consistent.
pub proof fn lemma_scope_round_trip(
    before: PowerAssertTransformerVisitor,
    saved: SavedScope,
    inside: PowerAssertTransformerVisitor,
    after: PowerAssertTransformerVisitor,
)
    requires
        saved == before.scope(),
        before.found_assertion ==> inside.found_assertion,
        after.scope() == saved,
        after.found_assertion == inside.found_assertion,
        before.consistent(),
    ensures
        after.needs_recorder == before.needs_recorder,
        after.recorder_context == before.recorder_context,
        after.consistent(),
{
}

/// An assertion whose argument holds nothing worth capturing is left exactly
/// as it is, whatever the scope and whatever the source map answers:
/// `assert(true)` never becomes a power-assert call.
pub proof fn lemma_boring_assert_untouched(
    arg: ExprV,
    file_name: Seq<char>,
    ctx: RecorderContext,
    source_code: Option<Seq<char>>,
    lines: Option<Seq<usize>>,
)
    requires
        !captures_any(arg, false),
    ensures
        transformed_argument(arg, file_name, ctx, source_code, lines) == (arg, None::<Seq<char>>),
{
}

/// A call is an assertion exactly when its callee is the plain name
/// `assert`: a call through a property access, such as `console.assert(x)`
/// or `assert.equal(a, b)`, is never one, nor is a call of any other name.
pub proof fn lemma_assertions_call_plain_assert(c: CallExprV)
    ensures
        is_assertion(c) == (c.callee matches CalleeV::Expr(f) && *f matches ExprV::Ident(i) && i.sym
            == "assert"@),
{
    reveal_strlit("assert");
    if let CalleeV::Expr(f) = c.callee {
        if let ExprV::Member { obj, prop: crate::ast::MemberPropV::Ident(p), .. } = *f {
            if let Some(n) = dotted_name(*obj) {
                let d = n + seq!['.'] + p;
                assert(d[n.len() as int] == '.');
                if d.len() == "assert"@.len() {
                    assert(n.len() < 6);
                    assert("assert"@[n.len() as int] != '.');
                    assert(d != "assert"@);
                }
            }
        }
    }
}

impl PowerAssertTransformerVisitor {
    /// Whether `node` is a call of `assert`.
    pub fn is_assertion_call(&self, node: &CallExpr) -> (b: bool)
        ensures
            b == is_assertion(node@),
    {
        match &node.callee {
            crate::ast::Callee::Expr(f) => match flatten_member_exprs(f) {
                Some(name) => string_is(&name, "assert"),
                None => false,
            },
            crate::ast::Callee::Other(_) => false,
        }
    }

    /// What to do at the call `node`.
    pub fn visit_mut_call_expr(&self, node: &CallExpr) -> (v: CallVisit)
        ensures
            v == (if !is_assertion(node@) {
                CallVisit::VisitChildren
            } else if node@.args.len() == 1 {
                CallVisit::TransformArgument
            } else {
                CallVisit::Skip
            }),
    {
        if !self.is_assertion_call(node) {
            CallVisit::VisitChildren
        } else if node.args.len() == 1 {
            CallVisit::TransformArgument
        } else {
            CallVisit::Skip
        }
    }

    /// The first step of transforming the argument `node` of an assertion:
    /// captures the values of its sub-expressions.  When nothing in it is
    /// worth capturing, `node` is left as it was and `None` comes back.
    /// Otherwise the scope now needs a recorder, the captured argument comes
    /// back, and `node` is left `Invalid` until [`Self::record_assert_call`]
    /// wraps it.
    pub fn capture_assert_argument(&mut self, node: &mut Expr) -> (r: Option<Expr>)
        ensures
            final(self).found_assertion == (old(self).found_assertion || captures_any(
                old(node)@,
                false,
            )),
            final(self).needs_recorder == (old(self).needs_recorder || captures_any(
                old(node)@,
                false,
            )),
            final(self).file_name == old(self).file_name,
            final(self).recorder_context == old(self).recorder_context,
            match r {
                None => !captures_any(old(node)@, false) && final(node)@ == old(node)@,
                Some(e) => captures_any(old(node)@, false) && final(node)@ == ExprV::Invalid && e@
                    == captured(old(node)@, argument_path(), false),
            },
    {
        let ghost arg_v = node@;
        let mut arg = Expr::Invalid;
        std::mem::swap(&mut arg, node);
        let mut path: Vec<String> = Vec::new();
        path.push(String::from_str("arguments/0"));
        assert(strings_view(path@) =~= argument_path());
        // Learn whether this argument alone captures anything.
        let needs_before = self.needs_recorder;
        self.needs_recorder = false;
        let expr = self.capture_expr(arg, path, None);
        let captured_here = self.needs_recorder;
        self.needs_recorder = needs_before || captured_here;
        if !captured_here {
            proof {
                capture_expr::lemma_capture_nothing_is_identity(arg_v, argument_path(), false);
            }
            *node = expr;
            return None;
        }
        Some(expr)
    }

    /// The second step of transforming an assertion's argument: wraps the
    /// captured argument `captured_arg` in a record of the assertion and puts
    /// it in `node`, given the snippet of the whole assertion call and the
    /// indices, counted from 0, of the lines it spans, as the source map
    /// answered (`None` where it failed).  The record reports the first line
    /// counted from 1.  On failure `node` is left `Invalid`.
    pub fn record_assert_call(
        &self,
        node: &mut Expr,
        captured_arg: Expr,
        source_code: Option<String>,
        lines: Option<Vec<usize>>,
    ) -> (r: Result<(), String>)
        ensures
            match source_code {
                None => r matches Err(e) && e@ == "Failed to get source_code for expr"@ && final(node)@
                    == ExprV::Invalid,
                Some(src) => match lines {
                    None => r matches Err(e) && e@ == "Failed to get line for expr"@ && final(node)@
                        == ExprV::Invalid,
                    Some(ls) => if ls@.len() == 0 {
                        r matches Err(e) && e@ == "Failed to get line for expr: empty lines list"@
                            && final(node)@ == ExprV::Invalid
                    } else {
                        r is Ok && final(node)@ == record_call(
                            captured_arg@,
                            self.file_name@,
                            src@,
                            (ls@[0] + 1) as nat,
                            self.recorder_context,
                        )
                    },
                },
            },
    {
        let source_code = match source_code {
            Some(s) => s,
            None => {
                *node = Expr::Invalid;
                return Err(String::from_str("Failed to get source_code for expr"));
            },
        };
        let line_num = match lines {
            None => {
                *node = Expr::Invalid;
                return Err(String::from_str("Failed to get line for expr"));
            },
            Some(ls) => {
                if ls.len() == 0 {
                    *node = Expr::Invalid;
                    return Err(String::from_str("Failed to get line for expr: empty lines list"));
                }
                // Lines are counted from 1 in the record.
                ls[0] as u128 + 1
            },
        };
        *node = wrap_in_record(
            captured_arg,
            &self.file_name,
            &source_code,
            line_num,
            self.recorder_context,
        );
        Ok(())
    }

    /// Transforms the argument `node` of an assertion call, given what the
    /// source map answered for the span of the whole call: its snippet, and
    /// the indices, counted from 0, of the lines it spans (`None` where it
    /// failed).  The record reports the first line counted from 1.
    pub fn transform_assert_call(
        &mut self,
        node: &mut Expr,
        source_code: Option<String>,
        lines: Option<Vec<usize>>,
    ) -> (r: Result<(), String>)
        ensures
            final(self).found_assertion == (old(self).found_assertion || captures_any(
                old(node)@,
                false,
            )),
            final(self).needs_recorder == (old(self).needs_recorder || captures_any(
                old(node)@,
                false,
            )),
            final(self).file_name == old(self).file_name,
            final(self).recorder_context == old(self).recorder_context,
            ({
                let t = transformed_argument(
                    old(node)@,
                    old(self).file_name@,
                    old(self).recorder_context,
                    match source_code {
                        Some(s) => Some(s@),
                        None => None,
                    },
                    match lines {
                        Some(ls) => Some(ls@),
                        None => None,
                    },
                );
                &&& final(node)@ == t.0
                &&& match t.1 {
                    None => r is Ok,
                    Some(msg) => r matches Err(e) && e@ == msg,
                }
            }),
    {
        match self.capture_assert_argument(node) {
            None => Ok(()),
            Some(expr) => self.record_assert_call(node, expr, source_code, lines),
        }
    }

    /// Enters a function whose context is `ctx`: returns what to restore when it is left.
    pub fn enter_scope(&mut self, ctx: RecorderContext) -> (saved: SavedScope)
        ensures
            saved == old(self).scope(),
            final(self).recorder_context == ctx,
            final(self).needs_recorder == old(self).needs_recorder,
            final(self).found_assertion == old(self).found_assertion,
            final(self).file_name == old(self).file_name,
    {
        let saved = SavedScope {
            needs_recorder: self.needs_recorder,
            recorder_context: self.recorder_context,
        };
        self.recorder_context = ctx;
        saved
    }

    /// Leaves a function, once what is inside it was visited: returns
    /// whether the function needs a recorder instance, and restores `saved`.
    pub fn exit_scope(&mut self, saved: SavedScope) -> (insert: bool)
        ensures
            insert == old(self).needs_recorder,
            final(self).scope() == saved,
            final(self).found_assertion == old(self).found_assertion,
            final(self).file_name == old(self).file_name,
    {
        let insert = self.needs_recorder;
        self.recorder_context = saved.recorder_context;
        self.needs_recorder = saved.needs_recorder;
        insert
    }

    /// Finishes a program once all of it was visited: when an assertion was
    /// transformed, puts the recorder class, and the top-level recorder
    /// instance when the top level needs one, at the top of the program.
    pub fn visit_mut_program(&self, node: &mut Program)
        ensures
            final(node)@ == (if self.found_assertion {
                with_recorder(old(node)@, self.needs_recorder)
            } else {
                old(node)@
            }),
    {
        if self.found_assertion {
            // Put the instance first, then the class before it: the class reads better first.
            if self.needs_recorder {
                prepend_stmt(node, new_power_assert_recorder_stmt());
            }
            prepend_stmt(node, power_assert_recorder_definition());
        }
    }
}

/// Where in `items` a statement goes that is put at the top of a module.
fn module_insert_index(items: &Vec<ModuleItem>) -> (pos: usize)
    ensures
        pos <= items@.len(),
        pos == module_top(items@.map_values(|m: ModuleItem| m@)),
{
    let ghost iv = items@.map_values(|m: ModuleItem| m@);
    proof {
        lemma_module_top(iv);
    }
    let mut i: usize = 0;
    while i < items.len()
        invariant
            i <= items.len(),
            iv == items@.map_values(|m: ModuleItem| m@),
            forall|j: int| 0 <= j < i ==> #[trigger] iv[j] is Import,
        decreases items.len() - i,
    {
        if let ModuleItem::Import(_) = &items[i] {
            assert(iv[i as int] is Import);
            i = i + 1;
        } else {
            assert(!(iv[i as int] is Import));
            proof {
                lemma_module_top_at(iv, i as int);
            }
            return i;
        }
    }
    proof {
        if module_top(iv) < iv.len() {
            assert(iv[module_top(iv)] is Import);
        }
    }
    items.len()
}

/// Puts the statement `stmt` at the top of the program `node`.
fn prepend_stmt(node: &mut Program, stmt: Stmt)
    ensures
        final(node)@ == prepend_to_program(old(node)@, stmt@),
{
    match node {
        Program::Module(items) => {
            let ghost before = items@;
            let pos = module_insert_index(items);
            items.insert(pos, ModuleItem::Stmt(stmt));
            proof {
                let nv = items@.map_values(|m: ModuleItem| m@);
                let ov = before.map_values(|m: ModuleItem| m@).insert(pos as int, ModuleItemV::Stmt(stmt@));
                assert forall|k: int| 0 <= k < nv.len() implies nv[k] == ov[k] by {
                    if k < pos {
                        assert(items@[k] == before[k]);
                    } else if k > pos {
                        assert(items@[k] == before[k - 1]);
                    }
                }
                assert(items@.map_values(|m: ModuleItem| m@) =~= before.map_values(|m: ModuleItem| m@).insert(
                    pos as int,
                    ModuleItemV::Stmt(stmt@),
                ));
            }
        },
        Program::Script(stmts) => {
            let ghost before = stmts@;
            stmts.insert(0, stmt);
            proof {
                assert(stmts_view(stmts@) =~= stmts_view(before).insert(0, stmt@));
            }
        },
    }
}

/// Puts the recorder statement `recorder_stmt` first in the body `body` of
/// a function or constructor; a declaration without a body is left alone.
pub fn insert_recorder(body: &mut Option<Vec<Stmt>>, recorder_stmt: Stmt)
    ensures
        match *old(body) {
            Some(stmts) => *final(body) matches Some(new_stmts) && stmts_view(new_stmts@) == stmts_view(
                stmts@,
            ).insert(0, recorder_stmt@),
            None => *final(body) is None,
        },
{
    if let Some(stmts) = body {
        let ghost before = stmts@;
        stmts.insert(0, recorder_stmt);
        assert(stmts_view(stmts@) =~= stmts_view(before).insert(0, recorder_stmt@));
    }
}

/// Puts the recorder statement `recorder_stmt` first in the body of an
/// arrow function; the shorthand `() => expr` becomes
/// `() => { recorder; return expr; }`, which returns what it returned.
pub fn insert_recorder_arrow(body: &mut ArrowBody, recorder_stmt: Stmt)
    ensures
        final(body)@ == match old(body)@ {
            ArrowBodyV::Block(stmts) => ArrowBodyV::Block(stmts.insert(0, recorder_stmt@)),
            ArrowBodyV::Expr(e) => ArrowBodyV::Block(seq![recorder_stmt@, StmtV::Return(Some(e))]),
        },
{
    let mut taken = ArrowBody::Block(Vec::new());
    std::mem::swap(&mut taken, body);
    match taken {
        ArrowBody::Block(mut stmts) => {
            let ghost before = stmts@;
            stmts.insert(0, recorder_stmt);
            assert(stmts_view(stmts@) =~= stmts_view(before).insert(0, recorder_stmt@));
            *body = ArrowBody::Block(stmts);
        },
        ArrowBody::Expr(e) => {
            let mut stmts: Vec<Stmt> = Vec::new();
            stmts.push(recorder_stmt);
            stmts.push(Stmt::Return(Some(e)));
            assert(stmts_view(stmts@) =~= seq![recorder_stmt@, StmtV::Return(Some(e@))]);
            *body = ArrowBody::Block(stmts);
        },
    }
}

} // verus!
