//! The syntax tree that the passes read and rewrite.
//!
//! The tree carries no source positions: a binding is told apart by the scope
//! token of its identifier, and nothing else in it depends on where it was
//! written.

use vstd::prelude::*;

verus! {

/// A unary operator.
#[derive(Debug, Clone, Copy, PartialEq, Eq, Structural)]
pub enum UnaryOp {
    /// `-`
    Minus,
    /// `+`
    Plus,
    /// `!`
    Bang,
    /// `~`
    Tilde,
    /// `typeof`
    TypeOf,
    /// `void`
    Void,
    /// `delete`
    Delete,
}

/// An update operator.
#[derive(Debug, Clone, Copy, PartialEq, Eq, Structural)]
pub enum UpdateOp {
    /// `++`
    PlusPlus,
    /// `--`
    MinusMinus,
}

/// A binary operator.
#[derive(Debug, Clone, Copy, PartialEq, Eq, Structural)]
pub enum BinaryOp {
    /// `==`
    EqEq,
    /// `!=`
    NotEq,
    /// `===`
    EqEqEq,
    /// `!==`
    NotEqEq,
    /// `<`
    Lt,
    /// `<=`
    LtEq,
    /// `>`
    Gt,
    /// `>=`
    GtEq,
    /// `<<`
    LShift,
    /// `>>`
    RShift,
    /// `>>>`
    ZeroFillRShift,
    /// `+`
    Add,
    /// `-`
    Sub,
    /// `*`
    Mul,
    /// `/`
    Div,
    /// `%`
    Mod,
    /// `|`
    BitOr,
    /// `^`
    BitXor,
    /// `&`
    BitAnd,
    /// `||`
    LogicalOr,
    /// `&&`
    LogicalAnd,
    /// `in`
    In,
    /// `instanceof`
    InstanceOf,
    /// `**`
    Exp,
}

/// An assignment operator.
#[derive(Debug, Clone, Copy, PartialEq, Eq, Structural)]
pub enum AssignOp {
    /// `=`
    Assign,
    /// `+=`
    AddAssign,
    /// `-=`
    SubAssign,
    /// `*=`
    MulAssign,
    /// `/=`
    DivAssign,
    /// `%=`
    ModAssign,
    /// `<<=`
    LShiftAssign,
    /// `>>=`
    RShiftAssign,
    /// `>>>=`
    ZeroFillRShiftAssign,
    /// `|=`
    BitOrAssign,
    /// `^=`
    BitXorAssign,
    /// `&=`
    BitAndAssign,
    /// `**=`
    ExpAssign,
}

/// The keyword of a variable declaration.
#[derive(Debug, Clone, Copy, PartialEq, Eq, Structural)]
pub enum VarDeclKind {
    Var,
    Let,
    Const,
}

/// What a class method is.
#[derive(Debug, Clone, Copy, PartialEq, Eq, Structural)]
pub enum MethodKind {
    Method,
    Getter,
    Setter,
}

/// The type-level wrappers an expression can stand under.
#[derive(Debug, Clone, Copy, PartialEq, Eq, Structural)]
pub enum TsCast {
    /// `<T>expr`
    TypeAssertion,
    /// `expr as const`
    ConstAssertion,
    /// `expr!`
    NonNull,
    /// `(expr: T)`
    TypeCast,
    /// `expr as T`
    As,
}

/// What the comment in front of a variable declaration says of it.
#[derive(Debug, Clone, Copy, PartialEq, Eq, Structural)]
pub enum Annotation {
    /// Nothing.
    Plain,
    /// `@const`: the binding is a constant whatever its name.
    Const,
    /// `@define`: the binding is a compile-time define.
    Define,
}

/// An identifier together with the lexical scope it was resolved in.
#[derive(Debug, PartialEq, Eq)]
pub struct Ident {
    /// The name as written.
    pub sym: String,
    /// Token of the scope that the name was resolved in.
    pub ctxt: u32,
}

/// A numeric literal: an IEEE-754 binary64 value.
#[derive(Debug, PartialEq, Eq)]
pub struct Number {
    /// The bit pattern of the value.
    pub bits: u64,
    /// The value written out by the default number-to-string rules.
    pub text: String,
}

/// A string literal.
#[derive(Debug, PartialEq, Eq)]
pub struct Str {
    /// The characters of the string, escapes resolved.
    pub value: String,
    /// Whether the source spelling used an escape sequence.
    pub has_escape: bool,
}

/// A regular expression literal.
#[derive(Debug, PartialEq, Eq)]
pub struct Regex {
    /// The pattern between the slashes.
    pub exp: String,
    /// The flags after the closing slash.
    pub flags: String,
}

/// A literal.
#[derive(Debug, PartialEq, Eq)]
pub enum Lit {
    Str(Str),
    Bool(bool),
    Null,
    Num(Number),
    /// An arbitrary-precision integer, by its decimal digits.
    BigInt(String),
    Regex(Regex),
}

/// One literal chunk of a template.
#[derive(Debug, PartialEq, Eq)]
pub struct TplElement {
    pub tail: bool,
    /// The chunk with escapes resolved, where they are valid.
    pub cooked: Option<String>,
    /// The chunk as written.
    pub raw: String,
}

/// A template literal: chunks with expressions between them.
#[derive(Debug, PartialEq, Eq)]
pub struct Tpl {
    pub exprs: Vec<Expr>,
    pub quasis: Vec<TplElement>,
}

/// An array element or call argument, possibly spread.
#[derive(Debug, PartialEq, Eq)]
pub struct ExprOrSpread {
    /// Whether the element is written with `...`.
    pub spread: bool,
    pub expr: Expr,
}

/// What is called, or whose member is taken.
#[derive(Debug, PartialEq, Eq)]
pub enum ExprOrSuper {
    Super,
    Expr(Box<Expr>),
}

/// The property that a member access takes.
#[derive(Debug, PartialEq, Eq)]
pub enum MemberProp {
    /// `obj.name`
    Ident(Ident),
    /// `obj[expr]`
    Computed(Box<Expr>),
}

/// The target of an assignment.
#[derive(Debug, PartialEq, Eq)]
pub enum PatOrExpr {
    Expr(Box<Expr>),
    Pat(Box<Pat>),
}

/// The key of a property.
#[derive(Debug, PartialEq, Eq)]
pub enum PropName {
    Ident(Ident),
    Str(Str),
    Num(Number),
    Computed(Box<Expr>),
}

/// A property of an object literal.
#[derive(Debug, PartialEq, Eq)]
#[allow(inconsistent_fields)]
pub enum Prop {
    /// `{ a }`
    Shorthand(Ident),
    /// `{ key: value }`
    KeyValue { key: PropName, value: Box<Expr> },
    /// `{ get key() { .. } }`
    Getter { key: PropName, body: Option<Vec<Stmt>> },
    /// `{ set key(param) { .. } }`
    Setter { key: PropName, param: Pat, body: Option<Vec<Stmt>> },
    /// `{ key() { .. } }`
    Method { key: PropName, function: Function },
}

/// A member of an object literal.
#[derive(Debug, PartialEq, Eq)]
pub enum PropOrSpread {
    /// `{ ...expr }`
    Spread(Box<Expr>),
    Prop(Box<Prop>),
}

/// The parameters and body shared by every function form.
#[derive(Debug, PartialEq, Eq)]
pub struct Function {
    pub params: Vec<Pat>,
    /// The statements of the body; `None` for a bodiless declaration.
    pub body: Option<Vec<Stmt>>,
    pub is_generator: bool,
    pub is_async: bool,
}

/// The heritage and members shared by class declarations and expressions.
#[derive(Debug, PartialEq, Eq)]
pub struct Class {
    pub super_class: Option<Box<Expr>>,
    pub body: Vec<ClassMember>,
}

/// A member of a class body.
#[derive(Debug, PartialEq, Eq)]
#[allow(inconsistent_fields)]
pub enum ClassMember {
    Constructor { key: PropName, params: Vec<Pat>, body: Option<Vec<Stmt>> },
    Method { key: PropName, function: Function, kind: MethodKind, is_static: bool },
    Prop { key: Box<Expr>, value: Option<Box<Expr>>, is_static: bool, computed: bool },
}

/// The body of an arrow function.
#[derive(Debug, PartialEq, Eq)]
pub enum BlockStmtOrExpr {
    Block(Vec<Stmt>),
    Expr(Box<Expr>),
}

/// An expression.
#[derive(Debug, PartialEq, Eq)]
#[allow(inconsistent_fields)]
pub enum Expr {
    /// `this`
    This,
    /// An array literal; `None` is a hole.
    Array(Vec<Option<ExprOrSpread>>),
    /// An object literal.
    Object(Vec<PropOrSpread>),
    /// A function expression.
    Fn { ident: Option<Ident>, function: Box<Function> },
    Unary { op: UnaryOp, arg: Box<Expr> },
    /// `++x`, `x--`
    Update { op: UpdateOp, prefix: bool, arg: Box<Expr> },
    Bin { op: BinaryOp, left: Box<Expr>, right: Box<Expr> },
    Assign { op: AssignOp, left: PatOrExpr, right: Box<Expr> },
    /// `obj.prop`, `obj[prop]`
    Member { obj: ExprOrSuper, prop: MemberProp },
    /// `test ? cons : alt`
    Cond { test: Box<Expr>, cons: Box<Expr>, alt: Box<Expr> },
    Call { callee: ExprOrSuper, args: Vec<ExprOrSpread> },
    /// `new callee(args)`; `None` where the parentheses are left out.
    New { callee: Box<Expr>, args: Option<Vec<ExprOrSpread>> },
    /// A comma sequence: the operands before the last one, and the last one.
    Sequence { init: Vec<Expr>, last: Box<Expr> },
    Ident(Ident),
    Lit(Lit),
    Tpl(Tpl),
    TaggedTpl { tag: Box<Expr>, tpl: Tpl },
    Arrow { params: Vec<Pat>, body: BlockStmtOrExpr, is_async: bool, is_generator: bool },
    /// A class expression.
    Class { ident: Option<Ident>, class: Box<Class> },
    Yield { arg: Option<Box<Expr>>, delegate: bool },
    /// `new.target`
    MetaProp { meta: Ident, prop: Ident },
    Await(Box<Expr>),
    Paren(Box<Expr>),
    /// An expression under a type-level wrapper.
    Ts { cast: TsCast, expr: Box<Expr> },
    /// `a?.b`
    OptChain(Box<Expr>),
    /// `#name`
    PrivateName(Ident),
}

/// A binding pattern.
#[derive(Debug, PartialEq, Eq)]
#[allow(inconsistent_fields)]
pub enum Pat {
    Ident(Ident),
    Array(Vec<Option<Pat>>),
    Rest(Box<Pat>),
    Object(Vec<ObjectPatProp>),
    /// A pattern with a default: `left = right`.
    Assign { left: Box<Pat>, right: Box<Expr> },
    Expr(Box<Expr>),
}

/// A property of an object pattern.
#[derive(Debug, PartialEq, Eq)]
#[allow(inconsistent_fields)]
pub enum ObjectPatProp {
    /// `{ key: value }`
    KeyValue { key: PropName, value: Box<Pat> },
    /// `{ key }`, `{ key = value }`
    Assign { key: Ident, value: Option<Box<Expr>> },
    /// `{ ...rest }`
    Rest(Box<Pat>),
}

/// One binding of a variable declaration.
#[derive(Debug, PartialEq, Eq)]
pub struct VarDeclarator {
    pub name: Pat,
    pub init: Option<Box<Expr>>,
}

/// A `var`, `let` or `const` declaration.
#[derive(Debug, PartialEq, Eq)]
pub struct VarDecl {
    pub kind: VarDeclKind,
    /// What the comment in front of the declaration says of it.
    pub annotation: Annotation,
    pub decls: Vec<VarDeclarator>,
}

/// A declaration.
#[derive(Debug, PartialEq, Eq)]
#[allow(inconsistent_fields)]
pub enum Decl {
    Class { ident: Ident, class: Class },
    Fn { ident: Ident, function: Function },
    Var(VarDecl),
}

/// The initialiser of a `for` statement.
#[derive(Debug, PartialEq, Eq)]
pub enum VarDeclOrExpr {
    VarDecl(VarDecl),
    Expr(Box<Expr>),
}

/// The left side of a `for..in` or `for..of` head.
#[derive(Debug, PartialEq, Eq)]
pub enum VarDeclOrPat {
    VarDecl(VarDecl),
    Pat(Pat),
}

/// One arm of a `switch`; `test` is `None` for `default`.
#[derive(Debug, PartialEq, Eq)]
pub struct SwitchCase {
    pub test: Option<Box<Expr>>,
    pub cons: Vec<Stmt>,
}

/// The `catch` part of a `try` statement.
#[derive(Debug, PartialEq, Eq)]
pub struct CatchClause {
    pub param: Option<Pat>,
    pub body: Vec<Stmt>,
}

/// A statement.
#[derive(Debug, PartialEq, Eq)]
#[allow(inconsistent_fields)]
pub enum Stmt {
    Block(Vec<Stmt>),
    Empty,
    Debugger,
    With { obj: Box<Expr>, body: Box<Stmt> },
    Return(Option<Box<Expr>>),
    Labeled { label: Ident, body: Box<Stmt> },
    Break(Option<Ident>),
    Continue(Option<Ident>),
    If { test: Box<Expr>, cons: Box<Stmt>, alt: Option<Box<Stmt>> },
    Switch { discriminant: Box<Expr>, cases: Vec<SwitchCase> },
    Throw(Box<Expr>),
    Try { block: Vec<Stmt>, handler: Option<CatchClause>, finalizer: Option<Vec<Stmt>> },
    While { test: Box<Expr>, body: Box<Stmt> },
    DoWhile { test: Box<Expr>, body: Box<Stmt> },
    For { init: Option<VarDeclOrExpr>, test: Option<Box<Expr>>, update: Option<Box<Expr>>, body: Box<Stmt> },
    ForIn { left: VarDeclOrPat, right: Box<Expr>, body: Box<Stmt> },
    ForOf { is_await: bool, left: VarDeclOrPat, right: Box<Expr>, body: Box<Stmt> },
    Decl(Decl),
    Expr(Box<Expr>),
}

/// One name that an import brings in.
#[derive(Debug, PartialEq, Eq)]
#[allow(inconsistent_fields)]
pub enum ImportSpecifier {
    /// `import { imported as local }`
    Named { local: Ident, imported: Option<Ident> },
    /// `import local`
    Default(Ident),
    /// `import * as local`
    Namespace(Ident),
}

/// One name that an export hands out: `export { orig as exported }`.
#[derive(Debug, PartialEq, Eq)]
pub struct ExportSpecifier {
    pub orig: Ident,
    pub exported: Option<Ident>,
}

/// What `export default` declares.
#[derive(Debug, PartialEq, Eq)]
#[allow(inconsistent_fields)]
pub enum DefaultDecl {
    Class { ident: Option<Ident>, class: Class },
    Fn { ident: Option<Ident>, function: Function },
}

/// An import or an export.
#[derive(Debug, PartialEq, Eq)]
#[allow(inconsistent_fields)]
pub enum ModuleDecl {
    Import { specifiers: Vec<ImportSpecifier>, src: Str },
    /// `export var x`
    ExportDecl(Decl),
    ExportNamed { specifiers: Vec<ExportSpecifier>, src: Option<Str> },
    ExportDefaultDecl(DefaultDecl),
    ExportDefaultExpr(Box<Expr>),
    /// `export * from src`
    ExportAll { src: Str },
}

/// A member of the body of a module.
#[derive(Debug, PartialEq, Eq)]
pub enum ModuleItem {
    ModuleDecl(ModuleDecl),
    Stmt(Stmt),
}

/// A module: imports, exports and statements.
#[derive(Debug, PartialEq, Eq)]
pub struct Module {
    pub body: Vec<ModuleItem>,
}

} // verus!
