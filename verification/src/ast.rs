//! The program tree the compiler walks. The upstream parser/validator has
//! already bound every identifier to a unique declaration identity and
//! decoded every literal, so the tree here carries plain values only.

use vstd::prelude::*;
use crate::value::EntityKey;

verus! {

/// An identifier occurrence, already bound by the upstream validator. The
/// write-only discard identifier is spelled `_` and may carry no identity.
#[derive(Clone, Debug)]
pub struct Ident {
    pub name: String,
    pub entity: Option<EntityKey>,
}

impl Ident {
    /// Whether this is the write-only discard identifier.
    pub open spec fn spec_is_blank(&self) -> bool {
        self.name@ == "_"@
    }

    /// Whether this is the write-only discard identifier.
    pub fn is_blank(&self) -> (r: bool)
        ensures
            r == self.spec_is_blank(),
    {
        let blank: String = "_".to_owned();
        self.name == blank
    }
}

/// A literal token, already decoded to its value by the front end.
#[derive(Clone, Debug)]
pub enum Token {
    Int(i64),
    /// IEEE-754 bit pattern of a floating literal.
    Float(u64),
    Imag,
    Char,
    Str(String),
}

/// A binary operator.
#[derive(Clone, Copy, Debug, PartialEq, Eq, Structural)]
pub enum BinOp {
    Add,
    Sub,
    Mul,
    Quo,
    Rem,
    And,
    Or,
    Xor,
    Shl,
    Shr,
    AndNot,
    Eql,
    Lss,
    Gtr,
    Neq,
    Leq,
    Geq,
    LAnd,
    LOr,
}

/// Whether an assignment statement declares its targets (`:=`) or writes to
/// already-declared ones (`=`).
#[derive(Clone, Copy, Debug, PartialEq, Eq, Structural)]
pub enum AssignOp {
    Assign,
    Define,
}

/// An expression. Kinds without a defined lowering are kept as explicit
/// variants so that compiling one fails as an unsupported construct rather
/// than being passed over.
#[derive(Debug)]
pub enum Expr {
    Ident(Ident),
    BasicLit(BasicLit),
    FuncLit(FuncLit),
    CompositeLit,
    Paren(Box<Expr>),
    Selector(Box<Expr>, Ident),
    Index,
    Slice,
    TypeAssert,
    Call(CallExpr),
    Star,
    Unary,
    Binary(BinaryExpr),
    KeyValue,
    Ellipsis,
    ArrayType,
    SliceType,
    StructType,
    FuncTypeExpr,
    InterfaceType,
    MapType,
    ChanType,
}

/// A basic literal.
#[derive(Clone, Debug)]
pub struct BasicLit {
    pub token: Token,
}

/// A function literal: its signature and its body.
#[derive(Debug)]
pub struct FuncLit {
    pub typ: FuncType,
    pub body: BlockStmt,
}

/// A call: the callee expression and the argument expressions in source
/// order.
#[derive(Debug)]
pub struct CallExpr {
    pub func: Box<Expr>,
    pub args: Vec<Expr>,
}

/// A binary operation.
#[derive(Debug)]
pub struct BinaryExpr {
    pub left: Box<Expr>,
    pub op: BinOp,
    pub right: Box<Expr>,
}

/// A statement. As with expressions, kinds without a defined lowering are
/// explicit variants.
#[derive(Debug)]
pub enum Stmt {
    Decl,
    Labeled,
    Send,
    IncDec,
    Assign(AssignStmt),
    Go,
    Defer,
    Return(ReturnStmt),
    Branch,
    Block(BlockStmt),
    If,
    Case,
    Switch,
    TypeSwitch,
    Comm,
    Select,
    For,
    Range,
    Expr(Box<Expr>),
}

/// An assignment: all left-hand targets, then all right-hand expressions, in
/// source order.
#[derive(Debug)]
pub struct AssignStmt {
    pub lhs: Vec<Expr>,
    pub op: AssignOp,
    pub rhs: Vec<Expr>,
}

/// A return statement with its result expressions in source order.
#[derive(Debug)]
pub struct ReturnStmt {
    pub results: Vec<Expr>,
}

/// A braced list of statements.
#[derive(Debug)]
pub struct BlockStmt {
    pub list: Vec<Stmt>,
}

/// A top-level declaration.
#[derive(Debug)]
pub enum Decl {
    Func(FuncDecl),
    Gen,
}

/// A top-level function declaration.
#[derive(Debug)]
pub struct FuncDecl {
    pub name: Ident,
    pub typ: FuncType,
    pub body: Option<BlockStmt>,
}

/// A function signature: parameter fields and optional result fields.
#[derive(Clone, Debug)]
pub struct FuncType {
    pub params: FieldList,
    pub results: Option<FieldList>,
}

/// A parameter or result field list.
#[derive(Clone, Debug)]
pub struct FieldList {
    pub list: Vec<Field>,
}

/// One field: the names it declares. A field with no names still takes one
/// slot.
#[derive(Clone, Debug)]
pub struct Field {
    pub names: Vec<Ident>,
}

/// One source file: the package name and the top-level declarations.
#[derive(Debug)]
pub struct File {
    pub name: Ident,
    pub decls: Vec<Decl>,
}

} // verus!
