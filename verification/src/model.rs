//! The mathematical model of the syntax tree: the same shapes over `Seq`.
//!
//! Contracts speak of these types; [`crate::view`] maps a tree to its model.

use vstd::prelude::*;
use crate::ast::{
    Annotation, AssignOp, BinaryOp, MethodKind, TsCast, UnaryOp, UpdateOp, VarDeclKind,
};

verus! {

/// The model of [`Ident`](crate::ast::Ident).
pub struct IdentV {
    pub sym: Seq<char>,
    pub ctxt: u32,
}

/// The model of [`Number`](crate::ast::Number).
pub struct NumberV {
    pub bits: u64,
    pub text: Seq<char>,
}

/// The model of [`Str`](crate::ast::Str).
pub struct StrV {
    pub value: Seq<char>,
    pub has_escape: bool,
}

/// The model of [`Regex`](crate::ast::Regex).
pub struct RegexV {
    pub exp: Seq<char>,
    pub flags: Seq<char>,
}

/// The model of [`Lit`](crate::ast::Lit).
pub enum LitV {
    Str(StrV),
    Bool(bool),
    Null,
    Num(NumberV),
    BigInt(Seq<char>),
    Regex(RegexV),
}

/// The model of [`TplElement`](crate::ast::TplElement).
pub struct TplElementV {
    pub tail: bool,
    pub cooked: Option<Seq<char>>,
    pub raw: Seq<char>,
}

/// The model of [`Tpl`](crate::ast::Tpl).
pub struct TplV {
    pub exprs: Seq<ExprV>,
    pub quasis: Seq<TplElementV>,
}

/// The model of [`ExprOrSpread`](crate::ast::ExprOrSpread).
pub struct ExprOrSpreadV {
    pub spread: bool,
    pub expr: ExprV,
}

/// The model of [`ExprOrSuper`](crate::ast::ExprOrSuper).
pub enum ExprOrSuperV {
    Super,
    Expr(Box<ExprV>),
}

/// The model of [`MemberProp`](crate::ast::MemberProp).
pub enum MemberPropV {
    Ident(IdentV),
    Computed(Box<ExprV>),
}

/// The model of [`PatOrExpr`](crate::ast::PatOrExpr).
pub enum PatOrExprV {
    Expr(Box<ExprV>),
    Pat(Box<PatV>),
}

/// The model of [`PropName`](crate::ast::PropName).
pub enum PropNameV {
    Ident(IdentV),
    Str(StrV),
    Num(NumberV),
    Computed(Box<ExprV>),
}

/// The model of [`Prop`](crate::ast::Prop).
#[allow(inconsistent_fields)]
pub enum PropV {
    Shorthand(IdentV),
    KeyValue { key: PropNameV, value: Box<ExprV> },
    Getter { key: PropNameV, body: Option<Seq<StmtV>> },
    Setter { key: PropNameV, param: PatV, body: Option<Seq<StmtV>> },
    Method { key: PropNameV, function: FunctionV },
}

/// The model of [`PropOrSpread`](crate::ast::PropOrSpread).
pub enum PropOrSpreadV {
    Spread(Box<ExprV>),
    Prop(Box<PropV>),
}

/// The model of [`Function`](crate::ast::Function).
pub struct FunctionV {
    pub params: Seq<PatV>,
    pub body: Option<Seq<StmtV>>,
    pub is_generator: bool,
    pub is_async: bool,
}

/// The model of [`Class`](crate::ast::Class).
pub struct ClassV {
    pub super_class: Option<Box<ExprV>>,
    pub body: Seq<ClassMemberV>,
}

/// The model of [`ClassMember`](crate::ast::ClassMember).
#[allow(inconsistent_fields)]
pub enum ClassMemberV {
    Constructor { key: PropNameV, params: Seq<PatV>, body: Option<Seq<StmtV>> },
    Method { key: PropNameV, function: FunctionV, kind: MethodKind, is_static: bool },
    Prop { key: Box<ExprV>, value: Option<Box<ExprV>>, is_static: bool, computed: bool },
}

/// The model of [`BlockStmtOrExpr`](crate::ast::BlockStmtOrExpr).
pub enum BlockStmtOrExprV {
    Block(Seq<StmtV>),
    Expr(Box<ExprV>),
}

/// The model of [`Expr`](crate::ast::Expr).
#[allow(inconsistent_fields)]
pub enum ExprV {
    This,
    Array(Seq<Option<ExprOrSpreadV>>),
    Object(Seq<PropOrSpreadV>),
    Fn { ident: Option<IdentV>, function: Box<FunctionV> },
    Unary { op: UnaryOp, arg: Box<ExprV> },
    Update { op: UpdateOp, prefix: bool, arg: Box<ExprV> },
    Bin { op: BinaryOp, left: Box<ExprV>, right: Box<ExprV> },
    Assign { op: AssignOp, left: PatOrExprV, right: Box<ExprV> },
    Member { obj: ExprOrSuperV, prop: MemberPropV },
    Cond { test: Box<ExprV>, cons: Box<ExprV>, alt: Box<ExprV> },
    Call { callee: ExprOrSuperV, args: Seq<ExprOrSpreadV> },
    New { callee: Box<ExprV>, args: Option<Seq<ExprOrSpreadV>> },
    Sequence { init: Seq<ExprV>, last: Box<ExprV> },
    Ident(IdentV),
    Lit(LitV),
    Tpl(TplV),
    TaggedTpl { tag: Box<ExprV>, tpl: TplV },
    Arrow { params: Seq<PatV>, body: BlockStmtOrExprV, is_async: bool, is_generator: bool },
    Class { ident: Option<IdentV>, class: Box<ClassV> },
    Yield { arg: Option<Box<ExprV>>, delegate: bool },
    MetaProp { meta: IdentV, prop: IdentV },
    Await(Box<ExprV>),
    Paren(Box<ExprV>),
    Ts { cast: TsCast, expr: Box<ExprV> },
    OptChain(Box<ExprV>),
    PrivateName(IdentV),
}

/// The model of [`Pat`](crate::ast::Pat).
#[allow(inconsistent_fields)]
pub enum PatV {
    Ident(IdentV),
    Array(Seq<Option<PatV>>),
    Rest(Box<PatV>),
    Object(Seq<ObjectPatPropV>),
    Assign { left: Box<PatV>, right: Box<ExprV> },
    Expr(Box<ExprV>),
}

/// The model of [`ObjectPatProp`](crate::ast::ObjectPatProp).
#[allow(inconsistent_fields)]
pub enum ObjectPatPropV {
    KeyValue { key: PropNameV, value: Box<PatV> },
    Assign { key: IdentV, value: Option<Box<ExprV>> },
    Rest(Box<PatV>),
}

/// The model of [`VarDeclarator`](crate::ast::VarDeclarator).
pub struct VarDeclaratorV {
    pub name: PatV,
    pub init: Option<Box<ExprV>>,
}

/// The model of [`VarDecl`](crate::ast::VarDecl).
pub struct VarDeclV {
    pub kind: VarDeclKind,
    pub annotation: Annotation,
    pub decls: Seq<VarDeclaratorV>,
}

/// The model of [`Decl`](crate::ast::Decl).
#[allow(inconsistent_fields)]
pub enum DeclV {
    Class { ident: IdentV, class: ClassV },
    Fn { ident: IdentV, function: FunctionV },
    Var(VarDeclV),
}

/// The model of [`VarDeclOrExpr`](crate::ast::VarDeclOrExpr).
pub enum VarDeclOrExprV {
    VarDecl(VarDeclV),
    Expr(Box<ExprV>),
}

/// The model of [`VarDeclOrPat`](crate::ast::VarDeclOrPat).
pub enum VarDeclOrPatV {
    VarDecl(VarDeclV),
    Pat(PatV),
}

/// The model of [`SwitchCase`](crate::ast::SwitchCase).
pub struct SwitchCaseV {
    pub test: Option<Box<ExprV>>,
    pub cons: Seq<StmtV>,
}

/// The model of [`CatchClause`](crate::ast::CatchClause).
pub struct CatchClauseV {
    pub param: Option<PatV>,
    pub body: Seq<StmtV>,
}

/// The model of [`Stmt`](crate::ast::Stmt).
#[allow(inconsistent_fields)]
pub enum StmtV {
    Block(Seq<StmtV>),
    Empty,
    Debugger,
    With { obj: Box<ExprV>, body: Box<StmtV> },
    Return(Option<Box<ExprV>>),
    Labeled { label: IdentV, body: Box<StmtV> },
    Break(Option<IdentV>),
    Continue(Option<IdentV>),
    If { test: Box<ExprV>, cons: Box<StmtV>, alt: Option<Box<StmtV>> },
    Switch { discriminant: Box<ExprV>, cases: Seq<SwitchCaseV> },
    Throw(Box<ExprV>),
    Try { block: Seq<StmtV>, handler: Option<CatchClauseV>, finalizer: Option<Seq<StmtV>> },
    While { test: Box<ExprV>, body: Box<StmtV> },
    DoWhile { test: Box<ExprV>, body: Box<StmtV> },
    For { init: Option<VarDeclOrExprV>, test: Option<Box<ExprV>>, update: Option<Box<ExprV>>, body: Box<StmtV> },
    ForIn { left: VarDeclOrPatV, right: Box<ExprV>, body: Box<StmtV> },
    ForOf { is_await: bool, left: VarDeclOrPatV, right: Box<ExprV>, body: Box<StmtV> },
    Decl(DeclV),
    Expr(Box<ExprV>),
}

/// The model of [`ImportSpecifier`](crate::ast::ImportSpecifier).
#[allow(inconsistent_fields)]
pub enum ImportSpecifierV {
    Named { local: IdentV, imported: Option<IdentV> },
    Default(IdentV),
    Namespace(IdentV),
}

/// The model of [`ExportSpecifier`](crate::ast::ExportSpecifier).
pub struct ExportSpecifierV {
    pub orig: IdentV,
    pub exported: Option<IdentV>,
}

/// The model of [`DefaultDecl`](crate::ast::DefaultDecl).
#[allow(inconsistent_fields)]
pub enum DefaultDeclV {
    Class { ident: Option<IdentV>, class: ClassV },
    Fn { ident: Option<IdentV>, function: FunctionV },
}

/// The model of [`ModuleDecl`](crate::ast::ModuleDecl).
#[allow(inconsistent_fields)]
pub enum ModuleDeclV {
    Import { specifiers: Seq<ImportSpecifierV>, src: StrV },
    ExportDecl(DeclV),
    ExportNamed { specifiers: Seq<ExportSpecifierV>, src: Option<StrV> },
    ExportDefaultDecl(DefaultDeclV),
    ExportDefaultExpr(Box<ExprV>),
    ExportAll { src: StrV },
}

/// The model of [`ModuleItem`](crate::ast::ModuleItem).
pub enum ModuleItemV {
    ModuleDecl(ModuleDeclV),
    Stmt(StmtV),
}

/// The model of [`Module`](crate::ast::Module).
pub struct ModuleV {
    pub body: Seq<ModuleItemV>,
}

} // verus!
