//! The program tree handed to the translator by a front end, after macro
//! expansion. `Mac` variants stand for macro nodes, which must not survive
//! expansion; meeting one is an internal fault.
use crate::diag::Span;
use vstd::prelude::*;

verus! {

/// One segment of a path; `has_args` marks generic arguments (`Vec::<T>`).
pub struct PathSegment {
    pub ident: String,
    pub has_args: bool,
}

pub struct Path {
    pub segments: Vec<PathSegment>,
}

pub enum TyKind {
    /// The empty tuple `()`.
    Unit,
    Path(Path),
    /// Any other shape: references, arrays, tuples, ...
    Other,
}

pub struct Ty {
    pub kind: TyKind,
    pub span: Span,
}

#[derive(Clone, Copy, PartialEq, Eq, Structural, Debug)]
pub enum Mutability {
    Immutable,
    Mutable,
}

#[derive(Clone, Copy, PartialEq, Eq, Structural, Debug)]
pub enum BindingMode {
    ByValue(Mutability),
    ByRef(Mutability),
}

pub enum PatKind {
    /// A binding `name` or `name @ sub`.
    Ident(BindingMode, String, Option<Box<Pat>>),
    Wild,
    Tuple(Vec<Pat>),
}

pub struct Pat {
    pub kind: PatKind,
    pub span: Span,
}

pub enum LitKind {
    Int(u128),
    /// A float literal, suffixed or not, by its text without the suffix.
    Float(String),
    Str(String),
    Char(char),
    Bool(bool),
}

#[derive(Clone, Copy, PartialEq, Eq, Structural, Debug)]
pub enum BinOp {
    Add,
    Sub,
    Mul,
    Div,
    Rem,
    And,
    Or,
    BitXor,
    BitAnd,
    BitOr,
    Shl,
    Shr,
    Eq,
    Lt,
    Le,
    Ne,
    Ge,
    Gt,
}

#[derive(Clone, Copy, PartialEq, Eq, Structural, Debug)]
pub enum UnOp {
    Deref,
    Not,
    Neg,
}

pub enum ExprKind {
    Lit(LitKind),
    Path(Path),
    Binary(BinOp, Box<Expr>, Box<Expr>),
    Unary(UnOp, Box<Expr>),
    If(Box<Expr>, Block, Option<Box<Expr>>),
    Assign(Box<Expr>, Box<Expr>),
    Ret(Option<Box<Expr>>),
    Call(Box<Expr>, Vec<Expr>),
    Field(Box<Expr>, String),
    Paren(Box<Expr>),
    Block(Block),
    Mac,
    /// Any expression shape outside the grammar (loops, closures, ...).
    Other,
}

pub struct Expr {
    pub kind: ExprKind,
    pub span: Span,
}

pub struct Local {
    pub pat: Pat,
    pub ty: Option<Ty>,
    pub init: Option<Box<Expr>>,
    pub span: Span,
}

pub enum StmtKind {
    Local(Local),
    Item(Box<Item>),
    /// An expression without a trailing semicolon.
    Expr(Expr),
    /// An expression followed by a semicolon.
    Semi(Expr),
    Mac,
}

pub struct Stmt {
    pub kind: StmtKind,
    pub span: Span,
}

pub struct Block {
    pub stmts: Vec<Stmt>,
    pub span: Span,
}

#[derive(Clone, Copy, PartialEq, Eq, Structural, Debug)]
pub enum Visibility {
    Inherited,
    Public,
}

/// An attribute `#[name]` or `#[name = "value"]`.
pub struct Attribute {
    pub name: String,
    pub value: Option<String>,
    pub span: Span,
}

pub struct Param {
    pub pat: Pat,
    pub ty: Ty,
}

pub enum FnRetTy {
    Default,
    Ty(Ty),
}

pub struct FnDecl {
    pub inputs: Vec<Param>,
    pub output: FnRetTy,
    pub variadic: bool,
}

#[derive(Clone, Copy, PartialEq, Eq, Structural, Debug)]
pub enum Unsafety {
    Normal,
    Unsafe,
}

#[derive(Clone, Copy, PartialEq, Eq, Structural, Debug)]
pub enum Abi {
    Rust,
    Foreign,
}

/// The generic parameters of a function, by name.
pub struct Generics {
    pub params: Vec<String>,
}

pub enum ItemKind {
    Static(Ty, Mutability, Expr),
    Const(Ty, Expr),
    Fn(FnDecl, Unsafety, Abi, Generics, Block),
    Mac,
    /// Any other item: structs, modules, impls, ...
    Other,
}

pub struct Item {
    pub ident: String,
    pub attrs: Vec<Attribute>,
    pub vis: Visibility,
    pub kind: ItemKind,
    pub span: Span,
}

/// A whole program: module-level attributes and items in declaration order.
pub struct Module {
    pub attrs: Vec<Attribute>,
    pub items: Vec<Item>,
}

} // verus!
