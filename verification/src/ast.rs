//! The slice of the JavaScript syntax tree that the transforms read and build.
//!
//! A node that comes from a parsed program keeps the parser's own data
//! (operators, type arguments, syntax contexts, spans of its parts) under a
//! `shell` handle: a number that the host assigns and that the transforms
//! carry through unchanged.  Subtrees that the transforms never look into are
//! `Opaque` handles.  A node whose `shell` is `None` was built here.
use vstd::prelude::*;

verus! {

/// Byte offsets of a node in the source text; `lo == hi == 0` marks a node without a position.
#[derive(Clone, Copy, Debug, PartialEq, Eq)]
pub struct Span {
    pub lo: u32,
    pub hi: u32,
}

/// A string literal.
#[derive(Clone, Debug, PartialEq, Eq)]
pub struct StrLit {
    pub span: Span,
    pub value: String,
    /// The literal as it was written, quotes included; `None` once the value was rewritten.
    pub raw: Option<String>,
}

/// An identifier reference.
#[derive(Clone, Debug, PartialEq, Eq)]
pub struct Ident {
    pub sym: String,
    pub shell: Option<u64>,
}

/// The property part of `obj.prop`.
#[derive(Clone, Debug, PartialEq, Eq)]
pub enum MemberProp {
    /// `obj.name`
    Ident(String),
    /// `obj[expr]` or `obj.#private`
    Other(u64),
}

/// What a call calls.
#[derive(Debug, PartialEq, Eq)]
pub enum Callee {
    Expr(Box<Expr>),
    /// `super(..)` or `import(..)`
    Other(u64),
}

/// One argument of a call, or one element of an array literal.
#[derive(Debug, PartialEq, Eq)]
pub struct ExprOrSpread {
    /// The span of `...` when the argument is spread.
    pub spread: Option<Span>,
    pub expr: Box<Expr>,
}

/// The left side of an assignment.
#[derive(Debug, PartialEq, Eq)]
pub enum AssignTarget {
    /// The operator and target of a parsed assignment.
    Kept(u64),
    /// `obj.prop =`, built here.
    Member { obj: Box<Expr>, prop: String },
}

/// One property of an object literal built here.
#[derive(Debug, PartialEq, Eq)]
pub enum ObjectProp {
    /// `{ name }`
    Shorthand(String),
    /// `{ key: value }`
    KeyValue(String, Box<Expr>),
}

/// A call `callee(args..)`.
#[derive(Debug, PartialEq, Eq)]
pub struct CallExpr {
    pub shell: Option<u64>,
    pub callee: Callee,
    pub args: Vec<ExprOrSpread>,
}

/// An expression.
#[derive(Debug, PartialEq, Eq)]
pub enum Expr {
    Ident(Ident),
    Str(StrLit),
    /// A numeric literal built here.
    Num(u128),
    /// A boolean literal built here.
    Bool(bool),
    /// `this`, built here.
    This,
    Array { shell: Option<u64>, elems: Vec<Option<ExprOrSpread>> },
    /// An object literal built here.
    Object(Vec<ObjectProp>),
    Unary { shell: u64, arg: Box<Expr> },
    Bin { shell: u64, left: Box<Expr>, right: Box<Expr> },
    Assign { target: AssignTarget, right: Box<Expr> },
    Member { shell: Option<u64>, obj: Box<Expr>, prop: MemberProp },
    Cond { shell: u64, test: Box<Expr>, cons: Box<Expr>, alt: Box<Expr> },
    Call(CallExpr),
    New { shell: Option<u64>, callee: Box<Expr>, args: Option<Vec<ExprOrSpread>> },
    /// The comma operator `(a, b, c)`.
    Sequence { shell: u64, exprs: Vec<Expr> },
    /// `super.prop` or `super[expr]`
    SuperProp(u64),
    Paren { shell: u64, expr: Box<Expr> },
    /// `expr as T`
    TsAs { shell: u64, expr: Box<Expr> },
    /// `expr<T>`
    TsInstantiation { shell: u64, expr: Box<Expr> },
    /// The placeholder left where an expression was taken out.
    Invalid,
    /// Any other expression, kept as it was parsed.
    Opaque(u64),
}

#[derive(Clone, Copy, Debug, PartialEq, Eq)]
pub enum VarKind {
    Var,
    Const,
}

/// A class member built here.
#[derive(Debug, PartialEq, Eq)]
pub enum ClassMember {
    Prop { key: String, value: Option<Box<Expr>> },
    Method { key: String, params: Vec<String>, body: Vec<Stmt> },
}

/// A class declaration built here.
#[derive(Debug, PartialEq, Eq)]
pub struct ClassDecl {
    pub name: String,
    pub members: Vec<ClassMember>,
}

/// A statement.
#[derive(Debug, PartialEq, Eq)]
pub enum Stmt {
    Expr(Box<Expr>),
    Return(Option<Box<Expr>>),
    /// A declaration of a single variable.
    Var { kind: VarKind, name: String, init: Option<Box<Expr>> },
    Class(ClassDecl),
    /// Any other statement, kept as it was parsed.
    Opaque(u64),
}

/// A top-level item of a module.
#[derive(Debug, PartialEq, Eq)]
pub enum ModuleItem {
    /// An import declaration (`import .. from ".."`), kept as it was parsed.
    Import(u64),
    /// Any other module declaration, such as an export, kept as it was parsed.
    Decl(u64),
    Stmt(Stmt),
}

/// The body of a whole program.
#[derive(Debug, PartialEq, Eq)]
pub enum Program {
    Module(Vec<ModuleItem>),
    Script(Vec<Stmt>),
}

/// The body of an arrow function.
#[derive(Debug, PartialEq, Eq)]
pub enum ArrowBody {
    Block(Vec<Stmt>),
    /// The shorthand form `() => expr`.
    Expr(Box<Expr>),
}

/// An import declaration: what the transforms read of it is where it imports from.
#[derive(Debug, PartialEq, Eq)]
pub struct ImportDecl {
    pub src: StrLit,
}

// ---------------------------------------------------------------------------
// Mathematical views
// ---------------------------------------------------------------------------

pub struct StrLitV {
    pub span: Span,
    pub value: Seq<char>,
    pub raw: Option<Seq<char>>,
}

pub struct IdentV {
    pub sym: Seq<char>,
    pub shell: Option<u64>,
}

pub enum MemberPropV {
    Ident(Seq<char>),
    Other(u64),
}

pub enum CalleeV {
    Expr(Box<ExprV>),
    Other(u64),
}

pub struct ExprOrSpreadV {
    pub spread: Option<Span>,
    pub expr: Box<ExprV>,
}

pub enum AssignTargetV {
    Kept(u64),
    Member { obj: Box<ExprV>, prop: Seq<char> },
}

pub enum ObjectPropV {
    Shorthand(Seq<char>),
    KeyValue(Seq<char>, Box<ExprV>),
}

pub struct CallExprV {
    pub shell: Option<u64>,
    pub callee: CalleeV,
    pub args: Seq<ExprOrSpreadV>,
}

pub enum ExprV {
    Ident(IdentV),
    Str(StrLitV),
    Num(nat),
    Bool(bool),
    This,
    Array { shell: Option<u64>, elems: Seq<Option<ExprOrSpreadV>> },
    Object(Seq<ObjectPropV>),
    Unary { shell: u64, arg: Box<ExprV> },
    Bin { shell: u64, left: Box<ExprV>, right: Box<ExprV> },
    Assign { target: AssignTargetV, right: Box<ExprV> },
    Member { shell: Option<u64>, obj: Box<ExprV>, prop: MemberPropV },
    Cond { shell: u64, test: Box<ExprV>, cons: Box<ExprV>, alt: Box<ExprV> },
    Call(CallExprV),
    New { shell: Option<u64>, callee: Box<ExprV>, args: Option<Seq<ExprOrSpreadV>> },
    Sequence { shell: u64, exprs: Seq<ExprV> },
    SuperProp(u64),
    Paren { shell: u64, expr: Box<ExprV> },
    TsAs { shell: u64, expr: Box<ExprV> },
    TsInstantiation { shell: u64, expr: Box<ExprV> },
    Invalid,
    Opaque(u64),
}

pub enum ClassMemberV {
    Prop { key: Seq<char>, value: Option<ExprV> },
    Method { key: Seq<char>, params: Seq<Seq<char>>, body: Seq<StmtV> },
}

pub struct ClassDeclV {
    pub name: Seq<char>,
    pub members: Seq<ClassMemberV>,
}

pub enum StmtV {
    Expr(ExprV),
    Return(Option<ExprV>),
    Var { kind: VarKind, name: Seq<char>, init: Option<ExprV> },
    Class(ClassDeclV),
    Opaque(u64),
}

pub enum ModuleItemV {
    Import(u64),
    Decl(u64),
    Stmt(StmtV),
}

pub enum ProgramV {
    Module(Seq<ModuleItemV>),
    Script(Seq<StmtV>),
}

pub enum ArrowBodyV {
    Block(Seq<StmtV>),
    Expr(ExprV),
}

impl View for StrLit {
    type V = StrLitV;

    open spec fn view(&self) -> StrLitV {
        StrLitV {
            span: self.span,
            value: self.value@,
            raw: match self.raw {
                Some(r) => Some(r@),
                None => None,
            },
        }
    }
}

impl View for Ident {
    type V = IdentV;

    open spec fn view(&self) -> IdentV {
        IdentV { sym: self.sym@, shell: self.shell }
    }
}

impl View for MemberProp {
    type V = MemberPropV;

    open spec fn view(&self) -> MemberPropV {
        match self {
            MemberProp::Ident(s) => MemberPropV::Ident(s@),
            MemberProp::Other(h) => MemberPropV::Other(*h),
        }
    }
}

/// The view of a list of arguments.
pub open spec fn args_view(args: Seq<ExprOrSpread>) -> Seq<ExprOrSpreadV> {
    Seq::new(args.len(), |i: int| args[i].view_of())
}

/// The view of the elements of an array literal.
pub open spec fn elems_view(elems: Seq<Option<ExprOrSpread>>) -> Seq<Option<ExprOrSpreadV>> {
    Seq::new(
        elems.len(),
        |i: int|
            match elems[i] {
                Some(a) => Some(a.view_of()),
                None => None,
            },
    )
}

/// The view of a list of expressions.
pub open spec fn exprs_view(exprs: Seq<Expr>) -> Seq<ExprV> {
    Seq::new(exprs.len(), |i: int| exprs[i].view_of())
}

impl ExprOrSpread {
    pub open spec fn view_of(&self) -> ExprOrSpreadV {
        ExprOrSpreadV { spread: self.spread, expr: Box::new(self.expr.view_of()) }
    }
}

impl View for ExprOrSpread {
    type V = ExprOrSpreadV;

    open spec fn view(&self) -> ExprOrSpreadV {
        self.view_of()
    }
}

impl Expr {
    pub open spec fn view_of(&self) -> ExprV
        decreases self,
    {
        match self {
            Expr::Ident(i) => ExprV::Ident(i@),
            Expr::Str(s) => ExprV::Str(s@),
            Expr::Num(n) => ExprV::Num(*n as nat),
            Expr::Bool(b) => ExprV::Bool(*b),
            Expr::This => ExprV::This,
            Expr::Array { shell, elems } => ExprV::Array {
                shell: *shell,
                elems: Seq::new(
                    elems@.len(),
                    |i: int|
                        if 0 <= i < elems@.len() {
                            match elems@[i] {
                                Some(a) => Some(
                                    ExprOrSpreadV { spread: a.spread, expr: Box::new(a.expr.view_of()) },
                                ),
                                None => None,
                            }
                        } else {
                            None
                        },
                ),
            },
            Expr::Object(props) => ExprV::Object(
                Seq::new(
                    props@.len(),
                    |i: int|
                        if 0 <= i < props@.len() {
                            match props@[i] {
                                ObjectProp::Shorthand(s) => ObjectPropV::Shorthand(s@),
                                ObjectProp::KeyValue(k, v) => ObjectPropV::KeyValue(
                                    k@,
                                    Box::new(v.view_of()),
                                ),
                            }
                        } else {
                            ObjectPropV::Shorthand(Seq::empty())
                        },
                ),
            ),
            Expr::Unary { shell, arg } => ExprV::Unary { shell: *shell, arg: Box::new(arg.view_of()) },
            Expr::Bin { shell, left, right } => ExprV::Bin {
                shell: *shell,
                left: Box::new(left.view_of()),
                right: Box::new(right.view_of()),
            },
            Expr::Assign { target, right } => ExprV::Assign {
                target: match target {
                    AssignTarget::Kept(h) => AssignTargetV::Kept(*h),
                    AssignTarget::Member { obj, prop } => AssignTargetV::Member {
                        obj: Box::new(obj.view_of()),
                        prop: prop@,
                    },
                },
                right: Box::new(right.view_of()),
            },
            Expr::Member { shell, obj, prop } => ExprV::Member {
                shell: *shell,
                obj: Box::new(obj.view_of()),
                prop: prop@,
            },
            Expr::Cond { shell, test, cons, alt } => ExprV::Cond {
                shell: *shell,
                test: Box::new(test.view_of()),
                cons: Box::new(cons.view_of()),
                alt: Box::new(alt.view_of()),
            },
            Expr::Call(c) => ExprV::Call(c.view_of()),
            Expr::New { shell, callee, args } => ExprV::New {
                shell: *shell,
                callee: Box::new(callee.view_of()),
                args: match args {
                    Some(a) => Some(
                        Seq::new(
                            a@.len(),
                            |i: int|
                                if 0 <= i < a@.len() {
                                    ExprOrSpreadV {
                                        spread: a@[i].spread,
                                        expr: Box::new(a@[i].expr.view_of()),
                                    }
                                } else {
                                    ExprOrSpreadV { spread: None, expr: Box::new(ExprV::Invalid) }
                                },
                        ),
                    ),
                    None => None,
                },
            },
            Expr::Sequence { shell, exprs } => ExprV::Sequence {
                shell: *shell,
                exprs: Seq::new(
                    exprs@.len(),
                    |i: int|
                        if 0 <= i < exprs@.len() {
                            exprs@[i].view_of()
                        } else {
                            ExprV::Invalid
                        },
                ),
            },
            Expr::SuperProp(h) => ExprV::SuperProp(*h),
            Expr::Paren { shell, expr } => ExprV::Paren { shell: *shell, expr: Box::new(expr.view_of()) },
            Expr::TsAs { shell, expr } => ExprV::TsAs { shell: *shell, expr: Box::new(expr.view_of()) },
            Expr::TsInstantiation { shell, expr } => ExprV::TsInstantiation {
                shell: *shell,
                expr: Box::new(expr.view_of()),
            },
            Expr::Invalid => ExprV::Invalid,
            Expr::Opaque(h) => ExprV::Opaque(*h),
        }
    }
}

impl View for Expr {
    type V = ExprV;

    open spec fn view(&self) -> ExprV {
        self.view_of()
    }
}

impl CallExpr {
    pub open spec fn view_of(&self) -> CallExprV
        decreases self,
    {
        CallExprV {
            shell: self.shell,
            callee: match &self.callee {
                Callee::Expr(e) => CalleeV::Expr(Box::new(e.view_of())),
                Callee::Other(h) => CalleeV::Other(*h),
            },
            args: Seq::new(
                self.args@.len(),
                |i: int|
                    if 0 <= i < self.args@.len() {
                        ExprOrSpreadV {
                            spread: self.args@[i].spread,
                            expr: Box::new(self.args@[i].expr.view_of()),
                        }
                    } else {
                        ExprOrSpreadV { spread: None, expr: Box::new(ExprV::Invalid) }
                    },
            ),
        }
    }
}

impl View for CallExpr {
    type V = CallExprV;

    open spec fn view(&self) -> CallExprV {
        self.view_of()
    }
}


impl ClassMember {
    pub open spec fn view_of(&self) -> ClassMemberV
        decreases self,
    {
        match self {
            ClassMember::Prop { key, value } => ClassMemberV::Prop {
                key: key@,
                value: match value {
                    Some(e) => Some(e.view_of()),
                    None => None,
                },
            },
            ClassMember::Method { key, params, body } => ClassMemberV::Method {
                key: key@,
                params: params@.map_values(|p: String| p@),
                body: Seq::new(
                    body@.len(),
                    |j: int|
                        if 0 <= j < body@.len() {
                            body@[j].view_of()
                        } else {
                            StmtV::Opaque(0)
                        },
                ),
            },
        }
    }
}

impl View for ClassMember {
    type V = ClassMemberV;

    open spec fn view(&self) -> ClassMemberV {
        self.view_of()
    }
}

impl ClassDecl {
    pub open spec fn view_of(&self) -> ClassDeclV
        decreases self,
    {
        ClassDeclV {
            name: self.name@,
            members: Seq::new(
                self.members@.len(),
                |i: int|
                    if 0 <= i < self.members@.len() {
                        self.members@[i].view_of()
                    } else {
                        ClassMemberV::Prop { key: Seq::empty(), value: None }
                    },
            ),
        }
    }
}

impl View for ClassDecl {
    type V = ClassDeclV;

    open spec fn view(&self) -> ClassDeclV {
        self.view_of()
    }
}

impl Stmt {
    pub open spec fn view_of(&self) -> StmtV
        decreases self,
    {
        match self {
            Stmt::Expr(e) => StmtV::Expr(e.view_of()),
            Stmt::Return(r) => StmtV::Return(
                match r {
                    Some(e) => Some(e.view_of()),
                    None => None,
                },
            ),
            Stmt::Var { kind, name, init } => StmtV::Var {
                kind: *kind,
                name: name@,
                init: match init {
                    Some(e) => Some(e.view_of()),
                    None => None,
                },
            },
            Stmt::Class(c) => StmtV::Class(c.view_of()),
            Stmt::Opaque(h) => StmtV::Opaque(*h),
        }
    }
}

impl View for Stmt {
    type V = StmtV;

    open spec fn view(&self) -> StmtV {
        self.view_of()
    }
}

/// The view of a list of statements.
pub open spec fn stmts_view(stmts: Seq<Stmt>) -> Seq<StmtV> {
    stmts.map_values(|s: Stmt| s@)
}

impl View for ModuleItem {
    type V = ModuleItemV;

    open spec fn view(&self) -> ModuleItemV {
        match self {
            ModuleItem::Import(h) => ModuleItemV::Import(*h),
            ModuleItem::Decl(h) => ModuleItemV::Decl(*h),
            ModuleItem::Stmt(s) => ModuleItemV::Stmt(s@),
        }
    }
}

impl View for Program {
    type V = ProgramV;

    open spec fn view(&self) -> ProgramV {
        match self {
            Program::Module(items) => ProgramV::Module(items@.map_values(|m: ModuleItem| m@)),
            Program::Script(stmts) => ProgramV::Script(stmts_view(stmts@)),
        }
    }
}

impl View for ArrowBody {
    type V = ArrowBodyV;

    open spec fn view(&self) -> ArrowBodyV {
        match self {
            ArrowBody::Block(stmts) => ArrowBodyV::Block(stmts_view(stmts@)),
            ArrowBody::Expr(e) => ArrowBodyV::Expr(e@),
        }
    }
}

impl View for ImportDecl {
    type V = StrLitV;

    open spec fn view(&self) -> StrLitV {
        self.src@
    }
}

} // verus!
