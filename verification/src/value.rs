//! Compile-time values and the small slice of runtime metadata the compiler
//! and its foreign-function context need to see. The runtime representation
//! of heap-managed values is the execution engine's business, not the
//! compiler's.

use vstd::prelude::*;

verus! {

/// Index of a function record in the compiled unit's function arena.
pub type FunctionKey = usize;

/// Index of a package record in the compiled unit's package arena.
pub type PackageKey = usize;

/// Opaque identity of a declaration, issued by the upstream validator; the
/// compiler compares it for equality and never interprets it.
pub type EntityKey = u64;

/// An interned string constant.
#[derive(Clone, Debug)]
pub struct StringVal {
    pub dark: bool,
    pub data: String,
}

/// A compile-time value: what can enter a function's constant pool or a
/// package's member list.
#[derive(Clone, Copy, Debug, PartialEq, Eq, Structural)]
pub enum GosValue {
    Nil,
    Bool(bool),
    Int(i64),
    /// A floating constant, carried as its IEEE-754 bit pattern; the compiler
    /// moves it into the pool without interpreting it.
    Float(u64),
    /// Key into the compiled unit's interned-string table.
    Str(usize),
    /// Key into the compiled unit's function arena.
    Function(FunctionKey),
}

/// A primitive routine of the execution engine that a binary operator lowers
/// to.
#[derive(Clone, Copy, Debug, PartialEq, Eq, Structural)]
pub enum Primitive {
    Add,
    Sub,
}

impl Primitive {
    /// Numeric index under which the engine registers the primitive.
    pub open spec fn spec_index(self) -> int {
        match self {
            Primitive::Add => 0,
            Primitive::Sub => 1,
        }
    }

    /// Numeric index under which the engine registers the primitive.
    pub fn index(self) -> (r: i16)
        ensures
            r == self.spec_index(),
    {
        match self {
            Primitive::Add => 0,
            Primitive::Sub => 1,
        }
    }
}

/// The field metadata a struct type's metadata is built from.
pub type Fields = Vec<Meta>;

/// How the engine is to treat a function record it is handed.
#[derive(Clone, Copy, Debug, PartialEq, Eq, Structural)]
pub enum FuncFlag {
    Default,
    ZeroValue,
    HasDefer,
}

/// The kind of a runtime value's metadata, as far as the compiler's context
/// needs to tell them apart.
#[derive(Clone, Copy, Debug, PartialEq, Eq, Structural)]
pub enum MetaKind {
    Bool,
    Int,
    Float64,
    Str,
    Function,
    Struct,
}

/// Metadata of a runtime value.
#[derive(Clone, Copy, Debug, PartialEq, Eq, Structural)]
pub struct Meta {
    pub kind: MetaKind,
}

impl Meta {
    /// The zero value of this metadata's kind. Kinds whose zero value lives on
    /// the engine's heap are handed out as nil: materializing them is the
    /// engine's task.
    pub open spec fn spec_zero(self) -> GosValue {
        match self.kind {
            MetaKind::Bool => GosValue::Bool(false),
            MetaKind::Int => GosValue::Int(0),
            MetaKind::Float64 => GosValue::Float(0),
            MetaKind::Str => GosValue::Nil,
            MetaKind::Function => GosValue::Nil,
            MetaKind::Struct => GosValue::Nil,
        }
    }

    /// The zero value of this metadata's kind.
    pub fn zero(&self) -> (r: GosValue)
        ensures
            r == self.spec_zero(),
    {
        match self.kind {
            MetaKind::Bool => GosValue::Bool(false),
            MetaKind::Int => GosValue::Int(0),
            MetaKind::Float64 => GosValue::Float(0),
            MetaKind::Str => GosValue::Nil,
            MetaKind::Function => GosValue::Nil,
            MetaKind::Struct => GosValue::Nil,
        }
    }
}

/// The always-available metadata of the built-in kinds.
#[derive(Clone, Copy, Debug, PartialEq, Eq, Structural)]
pub struct StaticMeta {
    pub mbool: Meta,
    pub mint: Meta,
    pub mfloat64: Meta,
    pub mstr: Meta,
}

impl StaticMeta {
    pub fn new() -> (r: StaticMeta)
        ensures
            r.mbool.kind == MetaKind::Bool,
            r.mint.kind == MetaKind::Int,
            r.mfloat64.kind == MetaKind::Float64,
            r.mstr.kind == MetaKind::Str,
    {
        StaticMeta {
            mbool: Meta { kind: MetaKind::Bool },
            mint: Meta { kind: MetaKind::Int },
            mfloat64: Meta { kind: MetaKind::Float64 },
            mstr: Meta { kind: MetaKind::Str },
        }
    }
}

} // verus!
