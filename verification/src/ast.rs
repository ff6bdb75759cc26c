//! The syntax tree of a parsed module, reduced to what the search for SQL
//! reads: every place that can hold a runtime expression, the names of
//! identifiers and imports, and the text of string and template literals.
//!
//! Type annotations, JSX and the text of other literals are not kept: no
//! marker call can stand in them.

use vstd::prelude::*;

verus! {

/// A parsed source file.
#[derive(Debug, PartialEq, Eq)]
pub struct Module {
    pub body: Vec<ModuleItem>,
}

/// One top-level item of a module or of a namespace block.
#[derive(Debug, PartialEq, Eq)]
pub enum ModuleItem {
    ModuleDecl(ModuleDecl),
    Stmt(Stmt),
}

/// An import or export declaration.
#[derive(Debug, PartialEq, Eq)]
pub enum ModuleDecl {
    Import(ImportDecl),
    ExportDecl(Decl),
    ExportNamed,
    ExportDefaultDecl(DefaultDecl),
    ExportDefaultExpr(Expr),
    ExportAll,
    TsImportEquals,
    /// `export = expr`
    TsExportAssignment(Expr),
    TsNamespaceExport,
}

/// `import { .. } from "src"`
#[derive(Debug, PartialEq, Eq)]
pub struct ImportDecl {
    pub src: String,
    pub specifiers: Vec<ImportSpecifier>,
}

/// One name brought in by an import declaration.
#[derive(Debug, PartialEq, Eq)]
pub enum ImportSpecifier {
    /// `import { imported as local }`, or `import { local }` where
    /// `imported` is `None`.
    Named { local: String, imported: Option<ModuleExportName> },
    /// `import local from ..`
    Default { local: String },
    /// `import * as local from ..`
    Namespace { local: String },
}

/// The exported name that a named import refers to.
#[derive(Debug, PartialEq, Eq)]
pub enum ModuleExportName {
    Ident(String),
    Str(String),
}

/// What `export default` declares.
#[derive(Debug, PartialEq, Eq)]
pub enum DefaultDecl {
    Class(Class),
    Fn(Function),
    TsInterfaceDecl,
}

/// A statement.
#[derive(Debug, PartialEq, Eq)]
pub enum Stmt {
    Block(Vec<Stmt>),
    Empty,
    Debugger,
    With { obj: Expr, body: Box<Stmt> },
    Return(Option<Expr>),
    Labeled(Box<Stmt>),
    Break,
    Continue,
    If { test: Expr, cons: Box<Stmt>, alt: Option<Box<Stmt>> },
    Switch { discriminant: Expr, cases: Vec<SwitchCase> },
    Throw(Expr),
    Try { block: Vec<Stmt>, handler: Option<CatchClause>, finalizer: Option<Vec<Stmt>> },
    While { test: Expr, body: Box<Stmt> },
    DoWhile { body: Box<Stmt>, test: Expr },
    For { init: Option<VarDeclOrExpr>, test: Option<Expr>, update: Option<Expr>, body: Box<Stmt> },
    ForIn { left: ForHead, right: Expr, body: Box<Stmt> },
    ForOf { left: ForHead, right: Expr, body: Box<Stmt> },
    Decl(Decl),
    Expr(Expr),
}

/// One `case` or `default` arm of a `switch`.
#[derive(Debug, PartialEq, Eq)]
pub struct SwitchCase {
    pub test: Option<Expr>,
    pub cons: Vec<Stmt>,
}

/// The `catch` part of a `try` statement.
#[derive(Debug, PartialEq, Eq)]
pub struct CatchClause {
    pub param: Option<Pat>,
    pub body: Vec<Stmt>,
}

/// What stands before `in` or `of` in a loop head.
#[derive(Debug, PartialEq, Eq)]
pub enum ForHead {
    VarDecl(Vec<VarDeclarator>),
    UsingDecl(Vec<VarDeclarator>),
    Pat(Pat),
}

/// The first part of a `for (;;)` head.
#[derive(Debug, PartialEq, Eq)]
pub enum VarDeclOrExpr {
    VarDecl(Vec<VarDeclarator>),
    Expr(Expr),
}

/// A declaration.
#[derive(Debug, PartialEq, Eq)]
pub enum Decl {
    Class(ClassDecl),
    Fn(Function),
    Var(Vec<VarDeclarator>),
    Using(Vec<VarDeclarator>),
    TsInterface,
    TsTypeAlias,
    /// The initialisers of the members of an `enum`, in order.
    TsEnum(Vec<Option<Expr>>),
    /// The items of the innermost block of a `namespace` or `module`.
    TsModule(Vec<ModuleItem>),
}

/// `class Name ..`
#[derive(Debug, PartialEq, Eq)]
pub struct ClassDecl {
    pub class: Class,
}

/// One `name = init` of a variable declaration.
#[derive(Debug, PartialEq, Eq)]
pub struct VarDeclarator {
    pub name: Pat,
    pub init: Option<Expr>,
}

/// A binding pattern.
#[derive(Debug, PartialEq, Eq)]
pub enum Pat {
    Ident(String),
    Array(Vec<Option<Pat>>),
    Rest(Box<Pat>),
    Object(Vec<ObjectPatProp>),
    Assign { left: Box<Pat>, right: Box<Expr> },
    Invalid,
    Expr(Box<Expr>),
}

/// One property of an object pattern. A `key` is kept where it is computed.
#[derive(Debug, PartialEq, Eq)]
pub enum ObjectPatProp {
    KeyValue { key: Option<Expr>, value: Pat },
    Assign { value: Option<Expr> },
    Rest(Pat),
}

/// The parameters and the body that functions, methods and accessors share.
#[derive(Debug, PartialEq, Eq)]
pub struct Function {
    pub decorators: Vec<Expr>,
    pub params: Vec<Param>,
    pub body: Option<Vec<Stmt>>,
}

/// One parameter of a function or a constructor.
#[derive(Debug, PartialEq, Eq)]
pub struct Param {
    pub decorators: Vec<Expr>,
    pub pat: Pat,
}

/// The parts of a class that can hold expressions.
#[derive(Debug, PartialEq, Eq)]
pub struct Class {
    pub decorators: Vec<Expr>,
    pub super_class: Option<Box<Expr>>,
    pub body: Vec<ClassMember>,
}

/// One member of a class body. A `key` is kept where it is computed.
#[derive(Debug, PartialEq, Eq)]
pub enum ClassMember {
    Constructor { params: Vec<Param>, body: Option<Vec<Stmt>> },
    Method { key: Option<Expr>, function: Function },
    PrivateMethod { function: Function },
    ClassProp { decorators: Vec<Expr>, key: Option<Expr>, value: Option<Expr> },
    PrivateProp { decorators: Vec<Expr>, value: Option<Expr> },
    TsIndexSignature,
    Empty,
    StaticBlock(Vec<Stmt>),
    AutoAccessor { decorators: Vec<Expr>, key: Option<Expr>, value: Option<Expr> },
}

/// One entry of an object literal.
#[derive(Debug, PartialEq, Eq)]
pub enum PropOrSpread {
    Spread(Expr),
    Prop(Prop),
}

/// A property of an object literal. A `key` is kept where it is computed.
#[derive(Debug, PartialEq, Eq)]
pub enum Prop {
    Shorthand,
    KeyValue { key: Option<Expr>, value: Expr },
    Assign { value: Expr },
    Getter { key: Option<Expr>, body: Option<Vec<Stmt>> },
    Setter { key: Option<Expr>, param: Pat, body: Option<Vec<Stmt>> },
    Method { key: Option<Expr>, function: Function },
}

/// A literal. Only the text of a string literal is kept.
#[derive(Debug, PartialEq, Eq)]
pub enum Lit {
    Str(String),
    Bool,
    Null,
    Num,
    BigInt,
    Regex,
    JSXText,
}

/// A template literal: the raw text of its static chunks, and the
/// expressions interpolated between them.
#[derive(Debug, PartialEq, Eq)]
pub struct Tpl {
    pub quasis: Vec<String>,
    pub exprs: Vec<Expr>,
}

/// What a call expression calls.
#[derive(Debug, PartialEq, Eq)]
pub enum Callee {
    Super,
    Import,
    Expr(Box<Expr>),
}

/// The body of an arrow function.
#[derive(Debug, PartialEq, Eq)]
pub enum BlockStmtOrExpr {
    BlockStmt(Vec<Stmt>),
    Expr(Box<Expr>),
}

/// The left side of an assignment.
#[derive(Debug, PartialEq, Eq)]
pub enum PatOrExpr {
    Expr(Box<Expr>),
    Pat(Box<Pat>),
}

/// What an optional chain `?.` is applied to.
#[derive(Debug, PartialEq, Eq)]
pub enum OptChainBase {
    Member { obj: Box<Expr>, computed: Option<Box<Expr>> },
    Call { callee: Box<Expr>, args: Vec<Expr> },
}

/// An expression. A member's property is kept where it is computed.
#[derive(Debug, PartialEq, Eq)]
pub enum Expr {
    This,
    Array(Vec<Option<Expr>>),
    Object(Vec<PropOrSpread>),
    Fn(Box<Function>),
    Unary(Box<Expr>),
    Update(Box<Expr>),
    Bin { left: Box<Expr>, right: Box<Expr> },
    Assign { left: PatOrExpr, right: Box<Expr> },
    Member { obj: Box<Expr>, computed: Option<Box<Expr>> },
    SuperProp { computed: Option<Box<Expr>> },
    Cond { test: Box<Expr>, cons: Box<Expr>, alt: Box<Expr> },
    Call { callee: Callee, args: Vec<Expr> },
    New { callee: Box<Expr>, args: Option<Vec<Expr>> },
    /// `a, b, c`
    Sequence(Vec<Expr>),
    Ident(String),
    Lit(Lit),
    Tpl(Tpl),
    TaggedTpl { tag: Box<Expr>, tpl: Tpl },
    Arrow { params: Vec<Pat>, body: BlockStmtOrExpr },
    Class(Box<Class>),
    Yield(Option<Box<Expr>>),
    MetaProp,
    Await(Box<Expr>),
    Paren(Box<Expr>),
    JSXMember,
    JSXNamespacedName,
    JSXEmpty,
    JSXElement,
    JSXFragment,
    TsTypeAssertion(Box<Expr>),
    TsConstAssertion(Box<Expr>),
    TsNonNull(Box<Expr>),
    TsAs(Box<Expr>),
    TsInstantiation(Box<Expr>),
    TsSatisfies(Box<Expr>),
    PrivateName,
    OptChain(OptChainBase),
    Invalid,
}

} // verus!
