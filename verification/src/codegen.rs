//! The bytecode compiler: function and package builders, storage-class
//! resolution under nested-function lexical scoping, and instruction
//! emission into the interleaved opcode/data cell stream.

use vstd::prelude::*;
use crate::ast::{
    AssignOp, AssignStmt, BasicLit, BinOp, BinaryExpr, BlockStmt, CallExpr, Decl, Expr, Field,
    FieldList, File, FuncDecl, FuncLit, FuncType, Ident, ReturnStmt, Stmt, Token,
};
use crate::opcode::{CodeData, Opcode, OpIndex, MAX_INLINE_LOCAL_INDEX};
use crate::table::{lemma_tbl_lookup_concat, lemma_tbl_lookup_none, lemma_tbl_lookup_some, tbl_contains, tbl_get, tbl_lookup};
use crate::value::{EntityKey, FunctionKey, GosValue, Meta, PackageKey, Primitive, StaticMeta, StringVal};

verus! {

/// A construct the compiler intentionally has no lowering for; meeting one
/// aborts compilation.
#[derive(Clone, Copy, Debug, PartialEq, Eq, Structural)]
pub enum Construct {
    EllipsisExpr,
    CompositeLitExpr,
    ParenExpr,
    SelectorExpr,
    IndexExpr,
    SliceExpr,
    TypeAssertExpr,
    StarExpr,
    UnaryExpr,
    KeyValueExpr,
    TypeLitExpr,
    ImagLit,
    CharLit,
    GenDeclStmt,
    LabeledStmt,
    SendStmt,
    IncDecStmt,
    GoStmt,
    DeferStmt,
    BranchStmt,
    IfStmt,
    CaseClause,
    SwitchStmt,
    TypeSwitchStmt,
    CommClause,
    SelectStmt,
    ForStmt,
    RangeStmt,
    FuncDeclWithoutBody,
    PackageMemberStore,
    BinaryOperator,
}

/// A broken internal invariant: most likely a defect in the upstream
/// validator's guarantees. Also aborts compilation, distinguishably from an
/// unsupported construct.
#[derive(Clone, Copy, Debug, PartialEq, Eq, Structural)]
pub enum Violation {
    UnresolvedEntity,
    MissingEntity,
    BlankLoad,
    StoreToConst,
    DuplicateEntity,
    IndexOverflow,
    EntryPointReset,
    NonIdentTarget,
}

/// Why a compilation was aborted.
#[derive(Clone, Copy, Debug, PartialEq, Eq, Structural)]
pub enum CgError {
    Unsupported(Construct),
    Internal(Violation),
}

/// A storage-class reference: where a resolved identifier's value lives.
/// `Blank` is the write-only discard identifier; it carries no index, and a
/// load must never target it.
#[derive(Clone, Copy, Debug, PartialEq, Eq, Structural)]
pub enum FnEntIndex {
    Const(OpIndex),
    LocalVar(OpIndex),
    UpValue(OpIndex),
    PackageMember(OpIndex),
    Blank,
}

impl FnEntIndex {
    /// The index carried by a non-discard reference.
    pub open spec fn spec_index(self) -> int {
        match self {
            FnEntIndex::Const(i) => i as int,
            FnEntIndex::LocalVar(i) => i as int,
            FnEntIndex::UpValue(i) => i as int,
            FnEntIndex::PackageMember(i) => i as int,
            FnEntIndex::Blank => 0,
        }
    }

    /// The index carried by a non-discard reference; the discard reference
    /// carries none.
    pub fn index(self) -> (r: OpIndex)
        requires
            !(self is Blank),
        ensures
            r == self.spec_index(),
    {
        match self {
            FnEntIndex::Const(i) => i,
            FnEntIndex::LocalVar(i) => i,
            FnEntIndex::UpValue(i) => i,
            FnEntIndex::PackageMember(i) => i,
            FnEntIndex::Blank => unreached(),
        }
    }
}

/// A captured-variable descriptor in its open form: the enclosing, still
/// compiling function's identity and the index of the captured entry within
/// that function. Closing it over a live or relocated location is the
/// execution engine's task; the compiler emits only this form.
#[derive(Clone, Copy, Debug, PartialEq, Eq, Structural)]
pub enum UpValue {
    Open(FunctionKey, OpIndex),
}

/// Largest index that fits an instruction-stream data cell.
pub const MAX_OP_INDEX: u16 = 32767;

/// The cells that a load of a storage-class reference appends: loads of
/// local slots 0..=15 are a single specialized opcode cell, everything else
/// is an opcode cell followed by one data cell.
pub open spec fn load_cells(idx: FnEntIndex) -> Seq<CodeData> {
    match idx {
        FnEntIndex::Const(i) => seq![
            CodeData::Code(Opcode::PUSH_CONST),
            CodeData::Data(i),
        ],
        FnEntIndex::LocalVar(i) => if 0 <= i <= MAX_INLINE_LOCAL_INDEX {
            seq![CodeData::Code(Opcode::spec_get_load_local(i))]
        } else {
            seq![CodeData::Code(Opcode::LOAD_LOCAL), CodeData::Data(i)]
        },
        FnEntIndex::UpValue(i) => seq![
            CodeData::Code(Opcode::LOAD_UPVALUE),
            CodeData::Data(i),
        ],
        FnEntIndex::PackageMember(i) => seq![
            CodeData::Code(Opcode::LOAD_PKG_VAR),
            CodeData::Data(i),
        ],
        FnEntIndex::Blank => Seq::empty(),
    }
}

/// Whether a store to the reference has a defined lowering: constants are
/// immutable and package-member stores are not implemented.
pub open spec fn storable(idx: FnEntIndex) -> bool {
    !(idx is Const) && !(idx is PackageMember)
}

/// The cells that a store to a storable reference appends. A store to the
/// discard reference emits no store instruction at all: the value is simply
/// popped.
pub open spec fn store_cells(idx: FnEntIndex) -> Seq<CodeData> {
    match idx {
        FnEntIndex::Blank => seq![CodeData::Code(Opcode::POP)],
        FnEntIndex::LocalVar(i) => seq![
            CodeData::Code(Opcode::STORE_LOCAL),
            CodeData::Data(i),
            CodeData::Code(Opcode::POP),
        ],
        FnEntIndex::UpValue(i) => seq![
            CodeData::Code(Opcode::STORE_UPVALUE),
            CodeData::Data(i),
            CodeData::Code(Opcode::POP),
        ],
        FnEntIndex::Const(_) => Seq::empty(),
        FnEntIndex::PackageMember(_) => Seq::empty(),
    }
}

/// The error a store to an unstorable reference reports.
pub open spec fn store_error(idx: FnEntIndex) -> CgError {
    if idx is Const {
        CgError::Internal(Violation::StoreToConst)
    } else {
        CgError::Unsupported(Construct::PackageMemberStore)
    }
}

/// The cells emitted for a whole target list: store instructions in reverse
/// of the targets' left-to-right order, matching the evaluation stack's
/// last-in-first-out discipline.
pub open spec fn stores_emitted(ts: Seq<FnEntIndex>) -> Seq<CodeData>
    decreases ts.len(),
{
    if ts.len() == 0 {
        Seq::empty()
    } else {
        store_cells(ts.last()) + stores_emitted(ts.drop_last())
    }
}

/// The first failure a reverse-order store pass over the targets meets, if
/// any.
pub open spec fn stores_result(ts: Seq<FnEntIndex>) -> Option<CgError>
    decreases ts.len(),
{
    if ts.len() == 0 {
        None
    } else if !storable(ts.last()) {
        Some(store_error(ts.last()))
    } else {
        stores_result(ts.drop_last())
    }
}

/// The cells a binary operator's primitive call appends.
pub open spec fn binary_cells(op: BinOp) -> Seq<CodeData> {
    match op {
        BinOp::Add => seq![
            CodeData::Code(Opcode::CALL_PRIMI_2_1),
            CodeData::Data(Primitive::Add.spec_index() as OpIndex),
        ],
        BinOp::Sub => seq![
            CodeData::Code(Opcode::CALL_PRIMI_2_1),
            CodeData::Data(Primitive::Sub.spec_index() as OpIndex),
        ],
        _ => Seq::empty(),
    }
}

/// Whether the binary operator has a defined lowering.
pub open spec fn binary_supported(op: BinOp) -> bool {
    op == BinOp::Add || op == BinOp::Sub
}

/// Number of local slots one field takes: one per declared name, and one for
/// a field that declares none.
pub open spec fn field_slots(f: Field) -> nat {
    if f.names@.len() == 0 {
        1
    } else {
        f.names@.len()
    }
}

/// Number of local slots a whole field list takes.
pub open spec fn fields_slots(fs: Seq<Field>) -> nat
    decreases fs.len(),
{
    if fs.len() == 0 {
        0
    } else {
        fields_slots(fs.drop_last()) + field_slots(fs.last())
    }
}

/// The entity-table entries that registering a name list starting at slot
/// `base` appends: one per name that carries an identity; a name without one
/// still consumes its slot.
pub open spec fn names_entries(ns: Seq<Ident>, base: int) -> Seq<(EntityKey, FnEntIndex)>
    decreases ns.len(),
{
    if ns.len() == 0 {
        Seq::empty()
    } else {
        names_entries(ns.drop_last(), base) + (match ns.last().entity {
            Some(k) => seq![
                (k, FnEntIndex::LocalVar((base + ns.len() - 1) as OpIndex)),
            ],
            None => Seq::empty(),
        })
    }
}

/// The entity-table entries that registering a whole field list starting at
/// slot `base` appends.
pub open spec fn fields_entries(fs: Seq<Field>, base: int) -> Seq<(EntityKey, FnEntIndex)>
    decreases fs.len(),
{
    if fs.len() == 0 {
        Seq::empty()
    } else {
        fields_entries(fs.drop_last(), base) + (if fs.last().names@.len() == 0 {
            Seq::<(EntityKey, FnEntIndex)>::empty()
        } else {
            names_entries(fs.last().names@, base + fields_slots(fs.drop_last()))
        })
    }
}

/// Whether a batch of fresh entries can be registered on top of a table:
/// keys pairwise distinct and none already bound.
pub open spec fn entries_fresh(
    es: Seq<(EntityKey, FnEntIndex)>,
    tbl: Seq<(EntityKey, FnEntIndex)>,
) -> bool {
    &&& forall|i: int, j: int| 0 <= i < j < es.len() ==> es[i].0 != es[j].0
    &&& forall|i: int| 0 <= i < es.len() ==> tbl_lookup(tbl, #[trigger] es[i].0) is None
}

/// A function record under construction, and, once sealed, the immutable
/// compiled form: instruction stream, constant pool, captured-variable
/// descriptors, slot counts, and the entity table mapping every declaration
/// identity visible inside the function to its storage-class reference.
#[derive(Debug)]
pub struct FunctionVal {
    /// The owning unit, or none for a function record the loader files
    /// outside any unit.
    pub package: Option<PackageKey>,
    pub code: Vec<CodeData>,
    pub consts: Vec<GosValue>,
    pub up_ptrs: Vec<UpValue>,
    pub param_count: usize,
    pub ret_count: usize,
    pub entities: Vec<(EntityKey, FnEntIndex)>,
    pub local_alloc: u16,
    /// The engine's metadata for the function, where the loader supplied
    /// one; the compiler itself builds none.
    pub meta: Option<Meta>,
}

impl FunctionVal {
    /// Slot-layout soundness: the categorized slots never outnumber the
    /// allocated ones.
    pub open spec fn wf(self) -> bool {
        self.param_count + self.ret_count <= self.local_alloc
    }

    /// No entity ever resolves to the discard reference.
    pub open spec fn entities_wf(self) -> bool {
        forall|i: int|
            0 <= i < self.entities@.len() ==> !((#[trigger] self.entities@[i]).1 is Blank)
    }

    /// The parts of the record that instruction emission leaves untouched.
    pub open spec fn same_tables(self, other: FunctionVal) -> bool {
        &&& other.package == self.package
        &&& other.meta == self.meta
        &&& other.consts == self.consts
        &&& other.up_ptrs == self.up_ptrs
        &&& other.param_count == self.param_count
        &&& other.ret_count == self.ret_count
        &&& other.entities == self.entities
        &&& other.local_alloc == self.local_alloc
    }

    pub fn new(package: Option<PackageKey>) -> (r: FunctionVal)
        ensures
            r.package == package,
            r.meta is None,
            r.code@ == Seq::<CodeData>::empty(),
            r.consts@ == Seq::<GosValue>::empty(),
            r.up_ptrs@ == Seq::<UpValue>::empty(),
            r.param_count == 0,
            r.ret_count == 0,
            r.entities@ == Seq::<(EntityKey, FnEntIndex)>::empty(),
            r.local_alloc == 0,
            r.wf(),
            r.entities_wf(),
    {
        FunctionVal {
            package,
            code: Vec::new(),
            consts: Vec::new(),
            up_ptrs: Vec::new(),
            param_count: 0,
            ret_count: 0,
            entities: Vec::new(),
            local_alloc: 0,
            meta: None,
        }
    }

    /// How many local slots the function body declares, beyond its return
    /// and parameter slots.
    pub fn local_count(&self) -> (r: usize)
        requires
            self.wf(),
        ensures
            r == self.local_alloc - self.param_count - self.ret_count,
    {
        self.local_alloc as usize - self.param_count - self.ret_count
    }

    /// The storage-class reference a declaration identity is bound to; the
    /// caller must know that the identity is bound.
    pub fn get_entity_index(&self, entity: EntityKey) -> (r: FnEntIndex)
        requires
            tbl_lookup(self.entities@, entity) is Some,
        ensures
            r == tbl_lookup(self.entities@, entity)->0,
    {
        match tbl_get(&self.entities, entity) {
            Some(idx) => idx,
            None => unreached(),
        }
    }

    /// Allocate the next local slot, binding it to a declaration identity if
    /// one is given; slots are issued densely, in declaration order,
    /// starting at 0. On an error the record is unchanged.
    pub fn add_local(&mut self, entity: Option<EntityKey>) -> (r: Result<FnEntIndex, CgError>)
        ensures
            ({
                let f0 = *old(self);
                let dup = entity matches Some(k) && tbl_lookup(f0.entities@, k) is Some;
                if dup {
                    r == Err::<FnEntIndex, CgError>(CgError::Internal(Violation::DuplicateEntity))
                        && *final(self) == f0
                } else if f0.local_alloc > MAX_OP_INDEX {
                    r == Err::<FnEntIndex, CgError>(CgError::Internal(Violation::IndexOverflow))
                        && *final(self) == f0
                } else {
                    let idx = FnEntIndex::LocalVar(f0.local_alloc as OpIndex);
                    &&& r == Ok::<FnEntIndex, CgError>(idx)
                    &&& final(self).local_alloc == f0.local_alloc + 1
                    &&& final(self).entities@ == (match entity {
                        Some(k) => f0.entities@.push((k, idx)),
                        None => f0.entities@,
                    })
                    &&& final(self).code == f0.code
                    &&& final(self).consts == f0.consts
                    &&& final(self).up_ptrs == f0.up_ptrs
                    &&& final(self).param_count == f0.param_count
                    &&& final(self).ret_count == f0.ret_count
                    &&& final(self).package == f0.package
                    &&& final(self).meta == f0.meta
                }
            }),
    {
        if let Some(k) = entity {
            if tbl_contains(&self.entities, k) {
                return Err(CgError::Internal(Violation::DuplicateEntity));
            }
        }
        if self.local_alloc > MAX_OP_INDEX {
            return Err(CgError::Internal(Violation::IndexOverflow));
        }
        let result = self.local_alloc as OpIndex;
        let idx = FnEntIndex::LocalVar(result);
        if let Some(k) = entity {
            self.entities.push((k, idx));
        }
        self.local_alloc = self.local_alloc + 1;
        Ok(idx)
    }

    /// Append a constant to the pool and return its reference; pool entries
    /// are never deduplicated, so every literal occurrence gets a fresh
    /// index. On an error the record is unchanged.
    pub fn add_const(&mut self, entity: Option<EntityKey>, cst: GosValue) -> (r: Result<
        FnEntIndex,
        CgError,
    >)
        ensures
            ({
                let f0 = *old(self);
                let dup = entity matches Some(k) && tbl_lookup(f0.entities@, k) is Some;
                if dup {
                    r == Err::<FnEntIndex, CgError>(CgError::Internal(Violation::DuplicateEntity))
                        && *final(self) == f0
                } else if f0.consts@.len() > MAX_OP_INDEX {
                    r == Err::<FnEntIndex, CgError>(CgError::Internal(Violation::IndexOverflow))
                        && *final(self) == f0
                } else {
                    let idx = FnEntIndex::Const(f0.consts@.len() as OpIndex);
                    &&& r == Ok::<FnEntIndex, CgError>(idx)
                    &&& final(self).consts@ == f0.consts@.push(cst)
                    &&& final(self).entities@ == (match entity {
                        Some(k) => f0.entities@.push((k, idx)),
                        None => f0.entities@,
                    })
                    &&& final(self).code == f0.code
                    &&& final(self).up_ptrs == f0.up_ptrs
                    &&& final(self).param_count == f0.param_count
                    &&& final(self).ret_count == f0.ret_count
                    &&& final(self).package == f0.package
                    &&& final(self).meta == f0.meta
                    &&& final(self).local_alloc == f0.local_alloc
                }
            }),
    {
        if let Some(k) = entity {
            if tbl_contains(&self.entities, k) {
                return Err(CgError::Internal(Violation::DuplicateEntity));
            }
        }
        if self.consts.len() > MAX_OP_INDEX as usize {
            return Err(CgError::Internal(Violation::IndexOverflow));
        }
        let result = self.consts.len() as OpIndex;
        let idx = FnEntIndex::Const(result);
        self.consts.push(cst);
        if let Some(k) = entity {
            self.entities.push((k, idx));
        }
        Ok(idx)
    }

    /// Bind a captured-variable descriptor to an identity, reusing the
    /// existing binding if the identity is already in the entity table: the
    /// same free variable referenced twice gets one descriptor, not two.
    pub fn try_add_upvalue(&mut self, entity: EntityKey, uv: UpValue) -> (r: Result<
        FnEntIndex,
        CgError,
    >)
        ensures
            ({
                let f0 = *old(self);
                if tbl_lookup(f0.entities@, entity) is Some {
                    r == Ok::<FnEntIndex, CgError>(tbl_lookup(f0.entities@, entity)->0) && *final(self)
                        == f0
                } else if f0.up_ptrs@.len() > MAX_OP_INDEX {
                    r == Err::<FnEntIndex, CgError>(CgError::Internal(Violation::IndexOverflow))
                        && *final(self) == f0
                } else {
                    let idx = FnEntIndex::UpValue(f0.up_ptrs@.len() as OpIndex);
                    &&& r == Ok::<FnEntIndex, CgError>(idx)
                    &&& final(self).up_ptrs@ == f0.up_ptrs@.push(uv)
                    &&& final(self).entities@ == f0.entities@.push((entity, idx))
                    &&& final(self).code == f0.code
                    &&& final(self).consts == f0.consts
                    &&& final(self).param_count == f0.param_count
                    &&& final(self).ret_count == f0.ret_count
                    &&& final(self).package == f0.package
                    &&& final(self).meta == f0.meta
                    &&& final(self).local_alloc == f0.local_alloc
                }
            }),
    {
        if let Some(existing) = tbl_get(&self.entities, entity) {
            return Ok(existing);
        }
        if self.up_ptrs.len() > MAX_OP_INDEX as usize {
            return Err(CgError::Internal(Violation::IndexOverflow));
        }
        let i = self.up_ptrs.len() as OpIndex;
        let idx = FnEntIndex::UpValue(i);
        self.up_ptrs.push(uv);
        self.entities.push((entity, idx));
        Ok(idx)
    }

    /// Append the load of a storage-class reference; the discard reference
    /// may never be loaded.
    pub fn emit_load(&mut self, index: FnEntIndex)
        requires
            !(index is Blank),
        ensures
            final(self).code@ == old(self).code@ + load_cells(index),
            old(self).same_tables(*final(self)),
    {
        let ghost c0 = old(self).code@;
        match index {
            FnEntIndex::Const(i) => {
                self.code.push(CodeData::Code(Opcode::PUSH_CONST));
                self.code.push(CodeData::Data(i));
            },
            FnEntIndex::LocalVar(i) => {
                let code = Opcode::get_load_local(i);
                self.code.push(CodeData::Code(code));
                if let Opcode::LOAD_LOCAL = code {
                    self.code.push(CodeData::Data(i));
                }
            },
            FnEntIndex::UpValue(i) => {
                self.code.push(CodeData::Code(Opcode::LOAD_UPVALUE));
                self.code.push(CodeData::Data(i));
            },
            FnEntIndex::PackageMember(i) => {
                self.code.push(CodeData::Code(Opcode::LOAD_PKG_VAR));
                self.code.push(CodeData::Data(i));
            },
            FnEntIndex::Blank => {
                unreached()
            },
        }
        proof {
            assert(self.code@ =~= c0 + load_cells(index));
        }
    }

    /// Append the store to a storable reference, or report why the store has
    /// no lowering; on an error the record is unchanged.
    pub fn emit_store(&mut self, index: FnEntIndex) -> (r: Result<(), CgError>)
        ensures
            storable(index) ==> r == Ok::<(), CgError>(()) && final(self).code@ == old(self).code@
                + store_cells(index) && old(self).same_tables(*final(self)),
            !storable(index) ==> r == Err::<(), CgError>(store_error(index)) && *final(self) == *old(self),
    {
        let ghost c0 = old(self).code@;
        match index {
            FnEntIndex::Blank => {},
            FnEntIndex::Const(_) => {
                return Err(CgError::Internal(Violation::StoreToConst));
            },
            FnEntIndex::PackageMember(_) => {
                return Err(CgError::Unsupported(Construct::PackageMemberStore));
            },
            FnEntIndex::LocalVar(i) => {
                self.code.push(CodeData::Code(Opcode::STORE_LOCAL));
                self.code.push(CodeData::Data(i));
            },
            FnEntIndex::UpValue(i) => {
                self.code.push(CodeData::Code(Opcode::STORE_UPVALUE));
                self.code.push(CodeData::Data(i));
            },
        }
        self.code.push(CodeData::Code(Opcode::POP));
        proof {
            assert(self.code@ =~= c0 + store_cells(index));
        }
        Ok(())
    }

    /// Append the stores for a whole target list, in reverse of the targets'
    /// left-to-right order.
    pub fn emit_stores(&mut self, targets: &Vec<FnEntIndex>) -> (r: Result<(), CgError>)
        ensures
            old(self).same_tables(*final(self)),
            old(self).code@.is_prefix_of(final(self).code@),
            r == (match stores_result(targets@) {
                None => Ok::<(), CgError>(()),
                Some(e) => Err::<(), CgError>(e),
            }),
            r is Ok ==> final(self).code@ == old(self).code@ + stores_emitted(targets@),
    {
        let ghost ts = targets@;
        let mut i = targets.len();
        proof {
            assert(ts.skip(i as int) =~= Seq::<FnEntIndex>::empty());
        }
        while i > 0
            invariant
                i <= ts.len(),
                targets@ == ts,
                old(self).same_tables(*self),
                self.code@ == old(self).code@ + stores_emitted(ts.skip(i as int)),
                stores_result(ts.skip(i as int)) is None,
            decreases i,
        {
            i = i - 1;
            let ghost pre = ts.skip(i as int + 1);
            let r = self.emit_store(targets[i]);
            proof {
                lemma_stores_cons(ts[i as int], pre);
                assert(ts.skip(i as int) =~= seq![ts[i as int]] + pre);
            }
            match r {
                Ok(()) => {
                    proof {
                        assert(self.code@ =~= old(self).code@ + stores_emitted(ts.skip(i as int)));
                    }
                },
                Err(e) => {
                    proof {
                        lemma_stores_result_split(ts.take(i as int), ts.skip(i as int));
                        assert(ts.take(i as int) + ts.skip(i as int) =~= ts);
                        assert(old(self).code@ =~= self.code@.subrange(
                            0,
                            old(self).code@.len() as int,
                        ));
                    }
                    return Err(e);
                },
            }
        }
        proof {
            assert(ts.skip(0) =~= ts);
            assert(old(self).code@ =~= self.code@.subrange(0, old(self).code@.len() as int));
        }
        Ok(())
    }

    /// Append the primitive call a binary operator lowers to; operators
    /// without a lowering are reported, with the record unchanged.
    pub fn emit_binary_primi_call(&mut self, op: BinOp) -> (r: Result<(), CgError>)
        ensures
            binary_supported(op) ==> r == Ok::<(), CgError>(()) && final(self).code@ == old(self).code@
                + binary_cells(op) && old(self).same_tables(*final(self)),
            !binary_supported(op) ==> r == Err::<(), CgError>(
                CgError::Unsupported(Construct::BinaryOperator),
            ) && *final(self) == *old(self),
    {
        let ghost c0 = old(self).code@;
        match op {
            BinOp::Add => {
                self.code.push(CodeData::Code(Opcode::CALL_PRIMI_2_1));
                self.code.push(CodeData::Data(Primitive::Add.index()));
            },
            BinOp::Sub => {
                self.code.push(CodeData::Code(Opcode::CALL_PRIMI_2_1));
                self.code.push(CodeData::Data(Primitive::Sub.index()));
            },
            _ => {
                return Err(CgError::Unsupported(Construct::BinaryOperator));
            },
        }
        proof {
            assert(self.code@ =~= c0 + binary_cells(op));
        }
        Ok(())
    }

    /// Append the function's return instruction.
    pub fn emit_return(&mut self)
        ensures
            final(self).code@ == old(self).code@ + seq![CodeData::Code(Opcode::RETURN)],
            old(self).same_tables(*final(self)),
    {
        self.code.push(CodeData::Code(Opcode::RETURN));
        proof {
            assert(self.code@ =~= old(self).code@ + seq![CodeData::Code(Opcode::RETURN)]);
        }
    }

    /// Append the begin-call marker that brackets a call's argument pushes.
    pub fn emit_pre_call(&mut self)
        ensures
            final(self).code@ == old(self).code@ + seq![CodeData::Code(Opcode::PRE_CALL)],
            old(self).same_tables(*final(self)),
    {
        self.code.push(CodeData::Code(Opcode::PRE_CALL));
        proof {
            assert(self.code@ =~= old(self).code@ + seq![CodeData::Code(Opcode::PRE_CALL)]);
        }
    }

    /// Append the perform-call instruction; the argument count stays implied
    /// by the stack discipline, not encoded.
    pub fn emit_call(&mut self, _args: usize)
        ensures
            final(self).code@ == old(self).code@ + seq![CodeData::Code(Opcode::CALL)],
            old(self).same_tables(*final(self)),
    {
        self.code.push(CodeData::Code(Opcode::CALL));
        proof {
            assert(self.code@ =~= old(self).code@ + seq![CodeData::Code(Opcode::CALL)]);
        }
    }

    /// Append the closure-materialization instruction that binds a function
    /// constant's open captured-variable descriptors to live locations.
    pub fn emit_new_closure(&mut self)
        ensures
            final(self).code@ == old(self).code@ + seq![CodeData::Code(Opcode::NEW_CLOSURE)],
            old(self).same_tables(*final(self)),
    {
        self.code.push(CodeData::Code(Opcode::NEW_CLOSURE));
        proof {
            assert(self.code@ =~= old(self).code@ + seq![CodeData::Code(Opcode::NEW_CLOSURE)]);
        }
    }
}

/// Prepending one target shifts it to the end of the reverse-order store
/// pass.
pub proof fn lemma_stores_cons(x: FnEntIndex, t: Seq<FnEntIndex>)
    ensures
        stores_emitted(seq![x] + t) == stores_emitted(t) + store_cells(x),
        stores_result(seq![x] + t) == (match stores_result(t) {
            Some(e) => Some(e),
            None => if !storable(x) {
                Some(store_error(x))
            } else {
                None
            },
        }),
    decreases t.len(),
{
    let s = seq![x] + t;
    if t.len() == 0 {
        assert(s =~= seq![x]);
        assert(s.len() == 1 && s.last() == x);
        assert(s.drop_last() =~= Seq::<FnEntIndex>::empty());
        assert(stores_emitted(s.drop_last()) == Seq::<CodeData>::empty());
        assert(stores_result(s.drop_last()) == None::<CgError>);
        assert(stores_emitted(t) == Seq::<CodeData>::empty());
        assert(stores_result(t) == None::<CgError>);
        assert(stores_emitted(s) =~= stores_emitted(t) + store_cells(x));
    } else {
        assert(s.last() == t.last());
        assert(s.drop_last() =~= seq![x] + t.drop_last());
        lemma_stores_cons(x, t.drop_last());
        if storable(t.last()) {
            assert(stores_emitted(s) == store_cells(t.last()) + (stores_emitted(t.drop_last())
                + store_cells(x)));
            assert(stores_emitted(s) =~= (store_cells(t.last()) + stores_emitted(t.drop_last()))
                + store_cells(x));
        } else {
            assert(stores_emitted(s) =~= (store_cells(t.last()) + stores_emitted(t.drop_last()))
                + store_cells(x));
        }
    }
}

/// The reverse-order store pass reports the suffix's failure before the
/// prefix's.
pub proof fn lemma_stores_result_split(a: Seq<FnEntIndex>, b: Seq<FnEntIndex>)
    ensures
        stores_result(a + b) == (match stores_result(b) {
            Some(e) => Some(e),
            None => stores_result(a),
        }),
    decreases b.len(),
{
    if b.len() == 0 {
        assert(a + b =~= a);
    } else {
        assert((a + b).last() == b.last());
        assert((a + b).drop_last() =~= a + b.drop_last());
        lemma_stores_result_split(a, b.drop_last());
    }
}


/// A compilation unit under construction and, once its file finishes
/// compiling, its sealed record: name, optional entry-function reference,
/// imports, ordered members, and the lookup table from declaration identity
/// to member index.
#[derive(Debug)]
pub struct PackageVal {
    pub name: String,
    pub main_func: Option<FunctionKey>,
    pub imports: Vec<PackageKey>,
    pub members: Vec<GosValue>,
    pub look_up: Vec<(EntityKey, OpIndex)>,
}

impl PackageVal {
    pub fn new(name: String) -> (r: PackageVal)
        ensures
            r.name == name,
            r.main_func is None,
            r.imports@ == Seq::<PackageKey>::empty(),
            r.members@ == Seq::<GosValue>::empty(),
            r.look_up@ == Seq::<(EntityKey, OpIndex)>::empty(),
    {
        PackageVal {
            name,
            main_func: None,
            imports: Vec::new(),
            members: Vec::new(),
            look_up: Vec::new(),
        }
    }

    /// Add a function member bound to a declaration identity, recording it in
    /// the member lookup table.
    pub fn add_func(&mut self, entity: EntityKey, fkey: FunctionKey) -> (r: Result<(), CgError>)
        ensures
            ({
                let p0 = *old(self);
                if p0.members@.len() > MAX_OP_INDEX {
                    r == Err::<(), CgError>(CgError::Internal(Violation::IndexOverflow))
                        && *final(self) == p0
                } else {
                    &&& r == Ok::<(), CgError>(())
                    &&& final(self).members@ == p0.members@.push(GosValue::Function(fkey))
                    &&& final(self).look_up@ == p0.look_up@.push(
                        (entity, p0.members@.len() as OpIndex),
                    )
                    &&& final(self).name == p0.name
                    &&& final(self).main_func == p0.main_func
                    &&& final(self).imports == p0.imports
                }
            }),
    {
        if self.members.len() > MAX_OP_INDEX as usize {
            return Err(CgError::Internal(Violation::IndexOverflow));
        }
        let idx = self.members.len() as OpIndex;
        self.members.push(GosValue::Function(fkey));
        self.look_up.push((entity, idx));
        Ok(())
    }
}

/// The shared object arenas of a compilation: sealed functions and packages,
/// interned strings, and runtime metadata.
#[derive(Debug)]
pub struct VMObjects {
    pub functions: Vec<FunctionVal>,
    pub packages: Vec<PackageVal>,
    pub strings: Vec<StringVal>,
    pub metas: Vec<Meta>,
    pub s_meta: StaticMeta,
}

impl VMObjects {
    pub fn new() -> (r: VMObjects)
        ensures
            r.functions@ == Seq::<FunctionVal>::empty(),
            r.packages@ == Seq::<PackageVal>::empty(),
            r.strings@ == Seq::<StringVal>::empty(),
            r.metas@ == Seq::<Meta>::empty(),
    {
        VMObjects {
            functions: Vec::new(),
            packages: Vec::new(),
            strings: Vec::new(),
            metas: Vec::new(),
            s_meta: StaticMeta::new(),
        }
    }
}

/// The compiler's immutable output: the object arenas plus the map from
/// compilation-unit name to its package record.
#[derive(Debug)]
pub struct ByteCode {
    pub objects: VMObjects,
    pub packages: Vec<(String, PackageKey)>,
}

/// How many of the targets of a defining assignment declare a new local
/// slot: all of them but the discard targets.
pub open spec fn define_target_count(lhs: Seq<Expr>) -> nat
    decreases lhs.len(),
{
    if lhs.len() == 0 {
        0
    } else {
        define_target_count(lhs.drop_last()) + (match lhs.last() {
            Expr::Ident(id) => if id.spec_is_blank() {
                0nat
            } else {
                1nat
            },
            _ => 0nat,
        })
    }
}

/// Number of new local slots a statement declares in the function being
/// compiled; a nested function literal allocates in its own builder, not
/// here.
pub open spec fn stmt_locals(s: Stmt) -> nat
    decreases s,
{
    match s {
        Stmt::Assign(a) => if a.op is Define {
            define_target_count(a.lhs@)
        } else {
            0
        },
        Stmt::Block(b) => stmts_locals(b.list@),
        _ => 0,
    }
}

/// Number of new local slots a statement list declares.
pub open spec fn stmts_locals(ss: Seq<Stmt>) -> nat
    decreases ss,
{
    if ss.len() == 0 {
        0
    } else {
        stmts_locals(ss.drop_last()) + stmt_locals(ss.last())
    }
}

/// The innermost enclosing in-progress builder, below the active one, whose
/// entity table already binds `k`: where the upvalue resolver captures from.
pub open spec fn enclosing_hit(bs: Seq<FunctionVal>, k: EntityKey) -> Option<int>
    decreases bs.len(),
{
    if bs.len() <= 1 {
        None
    } else if tbl_lookup(bs[bs.len() - 2].entities@, k) is Some {
        Some(bs.len() - 2)
    } else {
        enclosing_hit(bs.drop_last(), k)
    }
}

/// The builder the outward walk stops at is the hit: everything between it
/// and the active builder misses.
pub proof fn lemma_enclosing_found(bs: Seq<FunctionVal>, k: EntityKey, j: int)
    requires
        0 <= j < bs.len() - 1,
        tbl_lookup(bs[j].entities@, k) is Some,
        forall|m: int| j < m < bs.len() - 1 ==> tbl_lookup((#[trigger] bs[m]).entities@, k) is None,
    ensures
        enclosing_hit(bs, k) == Some(j),
    decreases bs.len(),
{
    if j == bs.len() - 2 {
    } else {
        assert(tbl_lookup(bs[bs.len() - 2].entities@, k) is None);
        assert(forall|m: int| 0 <= m < bs.len() - 1 ==> (#[trigger] bs.drop_last()[m]) == bs[m]);
        lemma_enclosing_found(bs.drop_last(), k, j);
    }
}

/// If every enclosing builder misses, the outward walk finds nothing.
pub proof fn lemma_enclosing_none(bs: Seq<FunctionVal>, k: EntityKey)
    requires
        forall|m: int| 0 <= m < bs.len() - 1 ==> tbl_lookup((#[trigger] bs[m]).entities@, k) is None,
    ensures
        enclosing_hit(bs, k) is None,
    decreases bs.len(),
{
    if bs.len() <= 1 {
    } else {
        assert(forall|m: int| 0 <= m < bs.len() - 1 ==> (#[trigger] bs.drop_last()[m]) == bs[m]);
        lemma_enclosing_none(bs.drop_last(), k);
    }
}

/// The name-keyed package table: the key of the most recently registered
/// unit with that name, if any.
pub open spec fn pkgs_lookup(s: Seq<(String, PackageKey)>, name: Seq<char>) -> Option<PackageKey>
    decreases s.len(),
{
    if s.len() == 0 {
        None
    } else if s.last().0@ == name {
        Some(s.last().1)
    } else {
        pkgs_lookup(s.drop_last(), name)
    }
}

/// A successful name lookup returns the key of a registered unit.
pub proof fn lemma_pkgs_lookup_some(s: Seq<(String, PackageKey)>, name: Seq<char>)
    requires
        pkgs_lookup(s, name) is Some,
    ensures
        exists|i: int| 0 <= i < s.len() && (#[trigger] s[i]).1 == pkgs_lookup(s, name)->0,
    decreases s.len(),
{
    if s.last().0@ == name {
        assert(s[s.len() - 1].1 == pkgs_lookup(s, name)->0);
    } else {
        lemma_pkgs_lookup_some(s.drop_last(), name);
        let i = choose|i: int|
            0 <= i < s.drop_last().len() && (#[trigger] s.drop_last()[i]).1 == pkgs_lookup(
                s.drop_last(),
                name,
            )->0;
        assert(s[i].1 == pkgs_lookup(s, name)->0);
    }
}

/// The tree walker and its surroundings: the object arenas, the registered
/// compilation units, the unit currently compiling, and the stack of
/// in-progress function builders (innermost last). `func_stack` holds the
/// arena key reserved for each in-progress builder.
#[derive(Debug)]
pub struct CodeGen {
    pub objects: VMObjects,
    pub packages: Vec<(String, PackageKey)>,
    pub current_pkg: Option<PackageKey>,
    pub func_stack: Vec<FunctionKey>,
    pub builders: Vec<FunctionVal>,
}

impl CodeGen {
    /// Structural soundness: one reserved arena key per in-progress builder,
    /// keys and the current unit within their arenas, and every builder's
    /// slot layout and entity table sound.
    pub open spec fn wf(self) -> bool {
        &&& self.func_stack@.len() == self.builders@.len()
        &&& forall|i: int|
            0 <= i < self.func_stack@.len() ==> (#[trigger] self.func_stack@[i])
                < self.objects.functions@.len()
        &&& forall|i: int|
            0 <= i < self.builders@.len() ==> (#[trigger] self.builders@[i]).wf()
                && self.builders@[i].entities_wf()
        &&& (self.current_pkg matches Some(p) ==> p < self.objects.packages@.len())
        &&& forall|i: int|
            0 <= i < self.packages@.len() ==> (#[trigger] self.packages@[i]).1
                < self.objects.packages@.len()
    }

    /// Whether a function is currently being compiled.
    pub open spec fn in_func(self) -> bool {
        self.builders@.len() >= 1
    }

    pub fn new() -> (r: CodeGen)
        ensures
            r.wf(),
            r.objects.functions@ == Seq::<FunctionVal>::empty(),
            r.objects.packages@ == Seq::<PackageVal>::empty(),
            r.objects.strings@ == Seq::<StringVal>::empty(),
            r.packages@ == Seq::<(String, PackageKey)>::empty(),
            r.current_pkg is None,
            r.func_stack@ == Seq::<FunctionKey>::empty(),
            r.builders@ == Seq::<FunctionVal>::empty(),
    {
        CodeGen {
            objects: VMObjects::new(),
            packages: Vec::new(),
            current_pkg: None,
            func_stack: Vec::new(),
            builders: Vec::new(),
        }
    }

    /// The key of an already-registered compilation unit, by name.
    pub fn find_package(&self, name: &String) -> (r: Option<PackageKey>)
        ensures
            r == pkgs_lookup(self.packages@, name@),
    {
        let mut i: usize = self.packages.len();
        proof {
            assert(self.packages@.take(self.packages@.len() as int) =~= self.packages@);
        }
        while i > 0
            invariant
                i <= self.packages@.len(),
                pkgs_lookup(self.packages@, name@) == pkgs_lookup(
                    self.packages@.take(i as int),
                    name@,
                ),
            decreases i,
        {
            i = i - 1;
            proof {
                assert(self.packages@.take(i as int + 1).last() == self.packages@[i as int]);
                assert(self.packages@.take(i as int + 1).drop_last() =~= self.packages@.take(
                    i as int,
                ));
            }
            if self.packages[i].0 == *name {
                return Some(self.packages[i].1);
            }
        }
        proof {
            assert(self.packages@.take(0) =~= Seq::<(String, PackageKey)>::empty());
        }
        None
    }

    /// The innermost enclosing in-progress builder, below the active one,
    /// that binds `k`, together with the reference it binds it to.
    fn find_enclosing(&self, k: EntityKey) -> (r: Option<(usize, FnEntIndex)>)
        requires
            self.in_func(),
        ensures
            match r {
                Some(hit) => enclosing_hit(self.builders@, k) == Some(hit.0 as int) && tbl_lookup(
                    self.builders@[hit.0 as int].entities@,
                    k,
                ) == Some(hit.1) && hit.0 < self.builders@.len() - 1,
                None => enclosing_hit(self.builders@, k) is None,
            },
    {
        let n = self.builders.len();
        let mut j = n - 1;
        while j > 0
            invariant
                n == self.builders@.len(),
                n >= 1,
                j <= n - 1,
                forall|m: int|
                    j <= m < n - 1 ==> tbl_lookup(
                        (#[trigger] self.builders@[m]).entities@,
                        k,
                    ) is None,
            decreases j,
        {
            j = j - 1;
            let hit = tbl_get(&self.builders[j].entities, k);
            if let Some(ind) = hit {
                proof {
                    lemma_enclosing_found(self.builders@, k, j as int);
                }
                return Some((j, ind));
            }
        }
        proof {
            lemma_enclosing_none(self.builders@, k);
        }
        None
    }

    /// Resolve a referenced identifier to its storage-class reference, in
    /// the strict precedence the scoping rules fix: a binding local to the
    /// active builder first, then a capture from the innermost enclosing
    /// in-progress builder that binds it, then a member of the current
    /// compilation unit; an identity bound nowhere is an internal error, as
    /// is a discard identifier or one without an identity in read position.
    /// A capture registers a fresh captured-variable entry in the active
    /// builder; every other outcome leaves the state untouched.
    ///
    /// The capture is deliberately one hop: the descriptor references the
    /// single enclosing builder that already binds the identity, and no
    /// intermediate captured-variable entries are synthesized in the
    /// builders between it and the active one. The descriptor names that
    /// function's definition, not one of its activations, so two live
    /// activations of a re-entrant function are not told apart. Generalizing
    /// this into a per-level capture chain with activation-distinguishing
    /// identity is left to the execution engine's needs; the contract below
    /// pins the one-hop form.
    pub fn resolve_ident(&mut self, ident: &Ident) -> (r: Result<FnEntIndex, CgError>)
        requires
            old(self).wf(),
            old(self).in_func(),
            old(self).current_pkg is Some,
        ensures
            final(self).wf(),
            final(self).in_func(),
            final(self).current_pkg == old(self).current_pkg,
            final(self).func_stack == old(self).func_stack,
            final(self).objects == old(self).objects,
            final(self).packages == old(self).packages,
            final(self).builders@.len() == old(self).builders@.len(),
            forall|j: int|
                0 <= j < old(self).builders@.len() - 1 ==> final(self).builders@[j] == old(self).builders@[j],
            ({
                let cur0 = old(self).builders@.last();
                let cur1 = final(self).builders@.last();
                &&& cur1.code == cur0.code
                &&& cur1.consts == cur0.consts
                &&& cur1.local_alloc == cur0.local_alloc
                &&& cur1.param_count == cur0.param_count
                &&& cur1.ret_count == cur0.ret_count
                &&& cur1.package == cur0.package
                &&& cur1.meta == cur0.meta
            }),
            r matches Ok(i) ==> !(i is Blank),
            ({
                match m_resolve(old(self).m(), *ident) {
                    Some(pair) => r == Ok::<FnEntIndex, CgError>(pair.1) && final(self).m()
                        == pair.0,
                    None => r is Err,
                }
            }),
            old(self).builders@.last().up_ptrs@.is_prefix_of(
                final(self).builders@.last().up_ptrs@,
            ),
            old(self).builders@.last().entities@.is_prefix_of(
                final(self).builders@.last().entities@,
            ),
            ({
                let s0 = *old(self);
                let bs = s0.builders@;
                let n = bs.len() as int;
                let cur = bs[n - 1];
                if ident.spec_is_blank() {
                    r == Err::<FnEntIndex, CgError>(CgError::Internal(Violation::BlankLoad))
                        && *final(self) == s0
                } else if ident.entity is None {
                    r == Err::<FnEntIndex, CgError>(CgError::Internal(Violation::MissingEntity))
                        && *final(self) == s0
                } else {
                    let k = ident.entity->0;
                    if tbl_lookup(cur.entities@, k) is Some {
                        r == Ok::<FnEntIndex, CgError>(tbl_lookup(cur.entities@, k)->0)
                            && *final(self) == s0
                    } else if enclosing_hit(bs, k) is Some {
                        let j = enclosing_hit(bs, k)->0;
                        let uv = UpValue::Open(
                            s0.func_stack@[j],
                            tbl_lookup(bs[j].entities@, k)->0.spec_index() as OpIndex,
                        );
                        if cur.up_ptrs@.len() <= MAX_OP_INDEX {
                            let idx = FnEntIndex::UpValue(cur.up_ptrs@.len() as OpIndex);
                            &&& r == Ok::<FnEntIndex, CgError>(idx)
                            &&& final(self).builders@.last().up_ptrs@ == cur.up_ptrs@.push(uv)
                            &&& final(self).builders@.last().entities@ == cur.entities@.push(
                                (k, idx),
                            )
                        } else {
                            r == Err::<FnEntIndex, CgError>(
                                CgError::Internal(Violation::IndexOverflow),
                            )
                        }
                    } else if tbl_lookup(
                        s0.objects.packages@[s0.current_pkg->0 as int].look_up@,
                        k,
                    ) is Some {
                        r == Ok::<FnEntIndex, CgError>(
                            FnEntIndex::PackageMember(
                                tbl_lookup(
                                    s0.objects.packages@[s0.current_pkg->0 as int].look_up@,
                                    k,
                                )->0,
                            ),
                        ) && *final(self) == s0
                    } else {
                        r == Err::<FnEntIndex, CgError>(
                            CgError::Internal(Violation::UnresolvedEntity),
                        ) && *final(self) == s0
                    }
                }
            }),
    {
        let n = self.builders.len();
        proof {
            lemma_m_enclosing(self.builders@, ident.entity->0);
            assert(m_cur(self.m()) == self.builders@.last().m());
        }
        if ident.is_blank() {
            return Err(CgError::Internal(Violation::BlankLoad));
        }
        let entity_key = match ident.entity {
            Some(k) => k,
            None => {
                return Err(CgError::Internal(Violation::MissingEntity));
            },
        };
        // 1. try local first
        let local = tbl_get(&self.builders[n - 1].entities, entity_key);
        if let Some(idx) = local {
            proof {
                lemma_tbl_lookup_some(self.builders@[n - 1].entities@, entity_key);
            }
            return Ok(idx);
        }
        // 2. try to capture from an enclosing in-progress builder
        if let Some((j, ind)) = self.find_enclosing(entity_key) {
            proof {
                lemma_tbl_lookup_some(self.builders@[j as int].entities@, entity_key);
            }
            let uv = UpValue::Open(self.func_stack[j], ind.index());
            let mut f = match self.builders.pop() {
                Some(f) => f,
                None => unreached(),
            };
            let res = f.try_add_upvalue(entity_key, uv);
            self.builders.push(f);
            proof {
                let b0 = old(self).builders@.last();
                let b1 = self.builders@.last();
                lemma_prefix_push(b0.up_ptrs@, b1.up_ptrs@);
                lemma_prefix_push(b0.entities@, b1.entities@);
                assert(old(self).m().builders[j as int] == old(self).builders@[j as int].m());
                if res is Ok {
                    lemma_m_set_cur(*old(self), *self);
                }
            }
            return res;
        }
        // 3. try the package level
        let p = match self.current_pkg {
            Some(p) => p,
            None => unreached(),
        };
        match tbl_get(&self.objects.packages[p].look_up, entity_key) {
            Some(i) => Ok(FnEntIndex::PackageMember(i)),
            None => Err(CgError::Internal(Violation::UnresolvedEntity)),
        }
    }
}


/// One more field extends the slot count and the entity batch by that
/// field's contribution.
pub proof fn lemma_fields_step(fs: Seq<Field>, i: int, b: int)
    requires
        0 <= i < fs.len(),
    ensures
        fields_slots(fs.take(i + 1)) == fields_slots(fs.take(i)) + field_slots(fs[i]),
        fields_entries(fs.take(i + 1), b) == fields_entries(fs.take(i), b) + (if fs[i].names@.len()
            == 0 {
            Seq::<(EntityKey, FnEntIndex)>::empty()
        } else {
            names_entries(fs[i].names@, b + fields_slots(fs.take(i)))
        }),
{
    assert(fs.take(i + 1).drop_last() =~= fs.take(i));
    assert(fs.take(i + 1).last() == fs[i]);
}

/// One more name extends the entity batch by that name's entry, bound to the
/// slot at its position.
pub proof fn lemma_names_step(ns: Seq<Ident>, j: int, b: int)
    requires
        0 <= j < ns.len(),
    ensures
        names_entries(ns.take(j + 1), b) == names_entries(ns.take(j), b) + (match ns[j].entity {
            Some(k) => seq![(k, FnEntIndex::LocalVar((b + j) as OpIndex))],
            None => Seq::<(EntityKey, FnEntIndex)>::empty(),
        }),
{
    assert(ns.take(j + 1).drop_last() =~= ns.take(j));
    assert(ns.take(j + 1).last() == ns[j]);
}

impl FunctionVal {
    /// Register a parameter or result field list: every name gets the next
    /// slot, bound to its identity when it carries one; a field with no
    /// names still consumes one anonymous slot. Returns how many slots the
    /// list took. On an error the instruction stream, pool, descriptors and
    /// counts are untouched; a partially registered batch of entities may
    /// remain, and the aborted compilation is discarded with it.
    pub fn add_params(&mut self, fl: &FieldList) -> (r: Result<usize, CgError>)
        ensures
            ({
                let f0 = *old(self);
                let fs = fl.list@;
                &&& (r matches Ok(n) ==> {
                    &&& n == fields_slots(fs)
                    &&& final(self).local_alloc == f0.local_alloc + fields_slots(fs)
                    &&& final(self).entities@ == f0.entities@ + fields_entries(
                        fs,
                        f0.local_alloc as int,
                    )
                })
                &&& (r is Err ==> r == Err::<usize, CgError>(
                    CgError::Internal(Violation::DuplicateEntity),
                ) || r == Err::<usize, CgError>(CgError::Internal(Violation::IndexOverflow)))
                &&& final(self).code == f0.code
                &&& final(self).consts == f0.consts
                &&& final(self).up_ptrs == f0.up_ptrs
                &&& final(self).param_count == f0.param_count
                &&& final(self).ret_count == f0.ret_count
                &&& final(self).package == f0.package
                &&& final(self).meta == f0.meta
                &&& f0.local_alloc <= final(self).local_alloc
                &&& f0.entities@.is_prefix_of(final(self).entities@)
                &&& (entries_fresh(fields_entries(fs, f0.local_alloc as int), f0.entities@)
                    && f0.local_alloc + fields_slots(fs) <= MAX_OP_INDEX + 1 ==> r is Ok)
                &&& (match m_params(f0.m(), fs) {
                    Some(f1) => r is Ok && final(self).m() == f1,
                    None => r is Err,
                })
            }),
    {
        let base = self.local_alloc;
        let n = fl.list.len();
        let mut i: usize = 0;
        proof {
            assert(fl.list@.take(0) =~= Seq::<Field>::empty());
            assert(fl.list@.skip(0) =~= fl.list@);
        }
        while i < n
            invariant
                i <= fl.list@.len(),
                n == fl.list@.len(),
                base == old(self).local_alloc,
                m_params(old(self).m(), fl.list@) == m_params(self.m(), fl.list@.skip(i as int)),
                self.local_alloc as int == old(self).local_alloc + fields_slots(
                    fl.list@.take(i as int),
                ),
                self.entities@ == old(self).entities@ + fields_entries(
                    fl.list@.take(i as int),
                    old(self).local_alloc as int,
                ),
                self.code == old(self).code,
                self.consts == old(self).consts,
                self.up_ptrs == old(self).up_ptrs,
                self.param_count == old(self).param_count,
                self.ret_count == old(self).ret_count,
                self.package == old(self).package,
                self.meta == old(self).meta,
            decreases n - i,
        {
            let names_len = fl.list[i].names.len();
            let ghost before_field = *self;
            proof {
                assert(fl.list@.skip(i as int)[0] == fl.list@[i as int]);
                assert(fl.list@.skip(i as int).subrange(
                    1,
                    fl.list@.skip(i as int).len() as int,
                ) =~= fl.list@.skip(i as int + 1));
            }
            if names_len == 0 {
                match self.add_local(None) {
                    Ok(_) => {
                        proof {
                            assert(self.m() =~~= (m_add_local(before_field.m(), None)->0).0);
                        }
                    },
                    Err(e) => {
                        proof {
                            assert(m_add_local(before_field.m(), None) is None);
                            assert(m_params(old(self).m(), fl.list@) is None);
                            if entries_fresh(
                                fields_entries(fl.list@, old(self).local_alloc as int),
                                old(self).entities@,
                            ) && old(self).local_alloc + fields_slots(fl.list@) <= MAX_OP_INDEX
                                + 1 {
                                lemma_fields_slots_bound(fl.list@, i as int, 0);
                                assert(false);
                            }
                            assert(old(self).entities@ =~= self.entities@.subrange(
                                0,
                                old(self).entities@.len() as int,
                            ));
                        }
                        return Err(e);
                    },
                }
            } else {
                let mut jj: usize = 0;
                proof {
                    assert(fl.list@[i as int].names@.skip(0) =~= fl.list@[i as int].names@);
                    assert(fl.list@[i as int].names@.take(0) =~= Seq::<Ident>::empty());
                    assert(fields_entries(fl.list@.take(i as int), old(self).local_alloc as int)
                        + names_entries(
                        fl.list@[i as int].names@.take(0),
                        old(self).local_alloc + fields_slots(fl.list@.take(i as int)),
                    ) =~= fields_entries(fl.list@.take(i as int), old(self).local_alloc as int));
                }
                while jj < names_len
                    invariant
                        jj <= fl.list@[i as int].names@.len(),
                        names_len == fl.list@[i as int].names@.len(),
                        0 <= i < fl.list@.len(),
                        n == fl.list@.len(),
                        base == old(self).local_alloc,
                        m_params(old(self).m(), fl.list@) == (match m_params_names(
                            self.m(),
                            fl.list@[i as int].names@.skip(jj as int),
                        ) {
                            Some(f1) => m_params(f1, fl.list@.skip(i as int + 1)),
                            None => None,
                        }),
                        self.local_alloc as int == old(self).local_alloc + fields_slots(
                            fl.list@.take(i as int),
                        ) + jj,
                        self.entities@ == old(self).entities@ + (fields_entries(
                            fl.list@.take(i as int),
                            old(self).local_alloc as int,
                        ) + names_entries(
                            fl.list@[i as int].names@.take(jj as int),
                            old(self).local_alloc + fields_slots(fl.list@.take(i as int)),
                        )),
                        self.code == old(self).code,
                        self.consts == old(self).consts,
                        self.up_ptrs == old(self).up_ptrs,
                        self.param_count == old(self).param_count,
                        self.ret_count == old(self).ret_count,
                        self.package == old(self).package,
                        self.meta == old(self).meta,
                    decreases names_len - jj,
                {
                    let ent = fl.list[i].names[jj].entity;
                    let ghost before_name = *self;
                    proof {
                        let ns = fl.list@[i as int].names@;
                        assert(ns.skip(jj as int)[0] == ns[jj as int]);
                        assert(ns.skip(jj as int).subrange(
                            1,
                            ns.skip(jj as int).len() as int,
                        ) =~= ns.skip(jj as int + 1));
                    }
                    match self.add_local(ent) {
                        Ok(_) => {
                            proof {
                                assert(self.m() =~~= (m_add_local(before_name.m(), ent)->0).0);
                            }
                        },
                        Err(e) => {
                            proof {
                                assert(m_add_local(before_name.m(), ent) is None);
                                assert(m_params(old(self).m(), fl.list@) is None);
                                if entries_fresh(
                                    fields_entries(fl.list@, old(self).local_alloc as int),
                                    old(self).entities@,
                                ) && old(self).local_alloc + fields_slots(fl.list@)
                                    <= MAX_OP_INDEX + 1 {
                                    lemma_fields_slots_bound(fl.list@, i as int, jj as int);
                                    if fl.list@[i as int].names@[jj as int].entity is Some {
                                        lemma_add_params_step_fresh(
                                            old(self).entities@,
                                            fl.list@,
                                            old(self).local_alloc as int,
                                            i as int,
                                            jj as int,
                                            self.entities@,
                                        );
                                    }
                                    assert(false);
                                }
                                assert(old(self).entities@ =~= self.entities@.subrange(
                                    0,
                                    old(self).entities@.len() as int,
                                ));
                            }
                            return Err(e);
                        },
                    }
                    proof {
                        lemma_names_step(
                            fl.list@[i as int].names@,
                            jj as int,
                            old(self).local_alloc + fields_slots(fl.list@.take(i as int)),
                        );
                        assert(self.entities@ =~= old(self).entities@ + (fields_entries(
                            fl.list@.take(i as int),
                            old(self).local_alloc as int,
                        ) + names_entries(
                            fl.list@[i as int].names@.take(jj as int + 1),
                            old(self).local_alloc + fields_slots(fl.list@.take(i as int)),
                        )));
                    }
                    jj = jj + 1;
                }
                proof {
                    assert(fl.list@[i as int].names@.take(names_len as int) =~= fl.list@[i as int].names@);
                    assert(fl.list@[i as int].names@.skip(names_len as int)
                        =~= Seq::<Ident>::empty());
                }
            }
            proof {
                lemma_fields_step(fl.list@, i as int, old(self).local_alloc as int);
                assert(self.entities@ =~= old(self).entities@ + fields_entries(
                    fl.list@.take(i as int + 1),
                    old(self).local_alloc as int,
                ));
            }
            i = i + 1;
        }
        proof {
            assert(fl.list@.take(n as int) =~= fl.list@);
            assert(fl.list@.skip(n as int) =~= Seq::<Field>::empty());
            assert(old(self).entities@ =~= self.entities@.subrange(
                0,
                old(self).entities@.len() as int,
            ));
        }
        let added = self.local_alloc - base;
        Ok(added as usize)
    }
}


/// The compile-time value of a basic literal; a string literal's value is
/// the key of its freshly interned string.
pub open spec fn lit_value(t: Token, skey: int) -> GosValue {
    match t {
        Token::Int(i) => GosValue::Int(i),
        Token::Float(b) => GosValue::Float(b),
        Token::Str(_) => GosValue::Str(skey as usize),
        Token::Imag => GosValue::Nil,
        Token::Char => GosValue::Nil,
    }
}

/// Prefixes compose.
pub proof fn lemma_prefix_trans<T>(a: Seq<T>, b: Seq<T>, c: Seq<T>)
    requires
        a.is_prefix_of(b),
        b.is_prefix_of(c),
    ensures
        a.is_prefix_of(c),
{
    assert(a =~= c.subrange(0, a.len() as int));
}

/// What one visiting step preserves: the builder stack's shape, the
/// enclosing builders, the already-sealed prefix of the arenas, and the
/// registered units.
pub open spec fn visit_frame(pre: CodeGen, post: CodeGen) -> bool {
    &&& post.builders@.len() == pre.builders@.len()
    &&& post.func_stack@ == pre.func_stack@
    &&& post.current_pkg == pre.current_pkg
    &&& forall|i: int|
        0 <= i < pre.builders@.len() - 1 ==> #[trigger] post.builders@[i] == pre.builders@[i]
    &&& pre.objects.functions@.is_prefix_of(post.objects.functions@)
    &&& pre.objects.strings@.is_prefix_of(post.objects.strings@)
    &&& post.objects.packages@ == pre.objects.packages@
    &&& post.objects.metas@ == pre.objects.metas@
    &&& post.objects.s_meta == pre.objects.s_meta
    &&& post.packages@ == pre.packages@
}

/// Builders are append-only: the streams and tables only grow, the counts
/// stand, indices once issued never change.
pub open spec fn builder_extends(b0: FunctionVal, b1: FunctionVal) -> bool {
    &&& b1.package == b0.package
    &&& b1.meta == b0.meta
    &&& b0.code@.is_prefix_of(b1.code@)
    &&& b0.consts@.is_prefix_of(b1.consts@)
    &&& b0.up_ptrs@.is_prefix_of(b1.up_ptrs@)
    &&& b0.entities@.is_prefix_of(b1.entities@)
    &&& b1.param_count == b0.param_count
    &&& b1.ret_count == b0.ret_count
    &&& b0.local_alloc <= b1.local_alloc
}

/// Visiting steps compose.
pub proof fn lemma_frame_trans(a: CodeGen, b: CodeGen, c: CodeGen)
    requires
        visit_frame(a, b),
        visit_frame(b, c),
    ensures
        visit_frame(a, c),
{
    lemma_prefix_trans(a.objects.functions@, b.objects.functions@, c.objects.functions@);
    lemma_prefix_trans(a.objects.strings@, b.objects.strings@, c.objects.strings@);
}

/// Builder growth composes.
pub proof fn lemma_extends_trans(a: FunctionVal, b: FunctionVal, c: FunctionVal)
    requires
        builder_extends(a, b),
        builder_extends(b, c),
    ensures
        builder_extends(a, c),
{
    lemma_prefix_trans(a.code@, b.code@, c.code@);
    lemma_prefix_trans(a.consts@, b.consts@, c.consts@);
    lemma_prefix_trans(a.up_ptrs@, b.up_ptrs@, c.up_ptrs@);
    lemma_prefix_trans(a.entities@, b.entities@, c.entities@);
}

/// Nothing extends: a builder extends itself.
pub proof fn lemma_extends_refl(b: FunctionVal)
    ensures
        builder_extends(b, b),
{
    assert(b.code@ =~= b.code@.subrange(0, b.code@.len() as int));
    assert(b.consts@ =~= b.consts@.subrange(0, b.consts@.len() as int));
    assert(b.up_ptrs@ =~= b.up_ptrs@.subrange(0, b.up_ptrs@.len() as int));
    assert(b.entities@ =~= b.entities@.subrange(0, b.entities@.len() as int));
}

/// An unchanged state is a visiting step.
pub proof fn lemma_frame_refl(a: CodeGen)
    ensures
        visit_frame(a, a),
{
    assert(a.objects.functions@ =~= a.objects.functions@.subrange(
        0,
        a.objects.functions@.len() as int,
    ));
    assert(a.objects.strings@ =~= a.objects.strings@.subrange(
        0,
        a.objects.strings@.len() as int,
    ));
}

/// Every entry a name list registers is a local-slot reference.
pub proof fn lemma_names_entries_local(ns: Seq<Ident>, b: int)
    ensures
        forall|i: int|
            0 <= i < names_entries(ns, b).len() ==> (#[trigger] names_entries(ns, b)[i]).1
                is LocalVar,
    decreases ns.len(),
{
    if ns.len() == 0 {
    } else {
        lemma_names_entries_local(ns.drop_last(), b);
    }
}

/// Every entry a field list registers is a local-slot reference.
pub proof fn lemma_fields_entries_local(fs: Seq<Field>, b: int)
    ensures
        forall|i: int|
            0 <= i < fields_entries(fs, b).len() ==> (#[trigger] fields_entries(fs, b)[i]).1
                is LocalVar,
    decreases fs.len(),
{
    if fs.len() == 0 {
    } else {
        lemma_fields_entries_local(fs.drop_last(), b);
        if fs.last().names@.len() > 0 {
            lemma_names_entries_local(fs.last().names@, b + fields_slots(fs.drop_last()));
        }
    }
}

/// The storage-class reference that resolving an identifier hands back, as a
/// function of the state alone: local binding first, then a fresh capture,
/// then a package member; none when resolution fails.
pub open spec fn resolve_outcome(s0: CodeGen, ident: Ident) -> Option<FnEntIndex> {
    if ident.spec_is_blank() || ident.entity is None {
        None
    } else {
        let k = ident.entity->0;
        let bs = s0.builders@;
        let cur = bs.last();
        if tbl_lookup(cur.entities@, k) is Some {
            Some(tbl_lookup(cur.entities@, k)->0)
        } else if enclosing_hit(bs, k) is Some {
            Some(FnEntIndex::UpValue(cur.up_ptrs@.len() as OpIndex))
        } else if s0.current_pkg is Some && tbl_lookup(
            s0.objects.packages@[s0.current_pkg->0 as int].look_up@,
            k,
        ) is Some {
            Some(
                FnEntIndex::PackageMember(
                    tbl_lookup(s0.objects.packages@[s0.current_pkg->0 as int].look_up@, k)->0,
                ),
            )
        } else {
            None
        }
    }
}

/// What compiling one top-level function declaration does: the function is
/// compiled and sealed, registered as a member of the current unit, and, if
/// it bears the entry-point name, recorded as the unit's entry point — which
/// must not already be set. A declaration with a different name leaves the
/// entry point as it was.
pub open spec fn decl_func_post(s0: CodeGen, s1: CodeGen, fd: FuncDecl, r: Result<(), CgError>) -> bool {
    &&& s1.packages@ == s0.packages@
    &&& s1.current_pkg == s0.current_pkg
    &&& s1.func_stack@ == s0.func_stack@
    &&& s1.builders@ == s0.builders@
    &&& s0.objects.functions@.is_prefix_of(s1.objects.functions@)
    &&& s0.objects.strings@.is_prefix_of(s1.objects.strings@)
    &&& s1.objects.metas@ == s0.objects.metas@
    &&& s1.objects.s_meta == s0.objects.s_meta
    &&& s1.objects.packages@.len() == s0.objects.packages@.len()
    &&& (forall|q: int|
        0 <= q < s0.objects.packages@.len() && q != s0.current_pkg->0 ==> (
        #[trigger] s1.objects.packages@[q]) == s0.objects.packages@[q])
    &&& (fd.body is None ==> r == Err::<(), CgError>(
        CgError::Unsupported(Construct::FuncDeclWithoutBody),
    ))
    &&& (r is Err ==> s1.objects.packages@ == s0.objects.packages@)
    &&& (r is Ok ==> ({
        let p = s0.current_pkg->0 as int;
        let pkg0 = s0.objects.packages@[p];
        let pkg1 = s1.objects.packages@[p];
        let k = s0.objects.functions@.len();
        &&& fd.body is Some
        &&& fd.name.entity is Some
        &&& pkg1.members@ == pkg0.members@.push(GosValue::Function(k as usize))
        &&& pkg1.look_up@ == pkg0.look_up@.push(
            (fd.name.entity->0, pkg0.members@.len() as OpIndex),
        )
        &&& pkg1.name == pkg0.name
        &&& pkg1.imports == pkg0.imports
        &&& (fd.name.name@ == "main"@ ==> pkg0.main_func is None && pkg1.main_func == Some(
            k as usize,
        ))
        &&& (fd.name.name@ != "main"@ ==> pkg1.main_func == pkg0.main_func)
        &&& (k as usize) < s1.objects.functions@.len()
        &&& ({
            let rec = s1.objects.functions@[k as int];
            &&& rec.package == Some(s0.current_pkg->0)
            &&& rec.param_count == fields_slots(fd.typ.params.list@)
            &&& rec.ret_count == (match fd.typ.results {
                Some(fl) => fields_slots(fl.list@),
                None => 0nat,
            })
            &&& rec.local_alloc == rec.ret_count + rec.param_count + stmts_locals(
                fd.body->0.list@,
            )
            &&& rec.code@.len() >= 1
            &&& rec.code@.last() == CodeData::Code(Opcode::RETURN)
            &&& (fd.body->0.list@.len() == 0 ==> rec.code@ == seq![
                CodeData::Code(Opcode::RETURN),
            ])
        })
    }))
}


/// A sequence is a prefix of any extension of itself.
pub proof fn lemma_prefix_extend<T>(a: Seq<T>, b: Seq<T>)
    ensures
        a.is_prefix_of(a + b),
{
    assert(a =~= (a + b).subrange(0, a.len() as int));
}

/// A sequence is a prefix of itself.
pub proof fn lemma_prefix_refl<T>(a: Seq<T>)
    ensures
        a.is_prefix_of(a),
{
    assert(a =~= a.subrange(0, a.len() as int));
}

/// If `b` is `a` with zero or more pushed elements, `a` is a prefix — stated
/// for the one-push case the builders use.
pub proof fn lemma_prefix_push<T>(a: Seq<T>, b: Seq<T>)
    requires
        b == a || (exists|x: T| b == a.push(x)),
    ensures
        a.is_prefix_of(b),
{
    if b == a {
        lemma_prefix_refl(a);
    } else {
        let x = choose|x: T| b == a.push(x);
        assert(a =~= a.push(x).subrange(0, a.len() as int));
    }
}

/// One more defining-assignment target extends the declared-locals count by
/// its contribution.
pub proof fn lemma_define_step(lhs: Seq<Expr>, i: int)
    requires
        0 <= i < lhs.len(),
    ensures
        define_target_count(lhs.take(i + 1)) == define_target_count(lhs.take(i)) + (match lhs[i] {
            Expr::Ident(id) => if id.spec_is_blank() {
                0nat
            } else {
                1nat
            },
            _ => 0nat,
        }),
{
    assert(lhs.take(i + 1).drop_last() =~= lhs.take(i));
    assert(lhs.take(i + 1).last() == lhs[i]);
}

/// One more statement extends the declared-locals count of a list by its
/// contribution.
pub proof fn lemma_stmts_locals_step(ss: Seq<Stmt>, i: int)
    requires
        0 <= i < ss.len(),
    ensures
        stmts_locals(ss.take(i + 1)) == stmts_locals(ss.take(i)) + stmt_locals(ss[i]),
{
    assert(ss.take(i + 1).drop_last() =~= ss.take(i));
    assert(ss.take(i + 1).last() == ss[i]);
}

impl CodeGen {
    /// Compile a referenced identifier: resolve it and load it. The discard
    /// identifier never reaches a load.
    pub fn visit_expr_ident(&mut self, ident: &Ident) -> (r: Result<(), CgError>)
        requires
            old(self).wf(),
            old(self).in_func(),
            old(self).current_pkg is Some,
        ensures
            final(self).wf(),
            final(self).in_func(),
            final(self).current_pkg is Some,
            visit_frame(*old(self), *final(self)),
            builder_extends(old(self).builders@.last(), final(self).builders@.last()),
            final(self).builders@.last().local_alloc == old(self).builders@.last().local_alloc,
            r is Ok ==> resolve_outcome(*old(self), *ident) is Some && final(self).builders@.last().code@ == old(self).builders@.last().code@ + load_cells(
                resolve_outcome(*old(self), *ident)->0,
            ),
            ({
                match m_resolve(old(self).m(), *ident) {
                    Some(pair) => r == Ok::<(), CgError>(()) && final(self).m() == m_emit(
                        pair.0,
                        load_cells(pair.1),
                    ),
                    None => r is Err,
                }
            }),
    {
        let ghost s0 = *self;
        proof {
            lemma_frame_refl(s0);
            lemma_extends_refl(s0.builders@.last());
        }
        let index = match self.resolve_ident(ident) {
            Ok(i) => i,
            Err(e) => {
                proof {
                    lemma_frame_refl(*self);
                    lemma_prefix_refl(self.builders@.last().code@);
                    lemma_prefix_refl(self.builders@.last().consts@);
                }
                return Err(e);
            },
        };
        let ghost mid = *self;
        let mut fb = match self.builders.pop() {
            Some(f) => f,
            None => unreached(),
        };
        fb.emit_load(index);
        self.builders.push(fb);
        proof {
            assert(self.builders@ =~= mid.builders@.update(
                mid.builders@.len() - 1,
                self.builders@.last(),
            ));
            lemma_prefix_refl(self.objects.functions@);
            lemma_prefix_refl(self.objects.strings@);
            lemma_prefix_extend(mid.builders@.last().code@, load_cells(index));
            lemma_prefix_refl(self.builders@.last().consts@);
            lemma_prefix_refl(self.builders@.last().up_ptrs@);
            lemma_prefix_refl(self.builders@.last().entities@);
            lemma_extends_trans(
                s0.builders@.last(),
                mid.builders@.last(),
                self.builders@.last(),
            );
            lemma_m_set_cur(mid, *self);
            assert(m_cur(mid.m()) == mid.builders@.last().m());
            assert(self.builders@.last().m() =~= FnB {
                code: m_cur(mid.m()).code + load_cells(index),
                ..m_cur(mid.m())
            });
            assert(self.m() == m_emit(mid.m(), load_cells(index)));
        }
        Ok(())
    }

    /// Compile a basic literal: append its value to the constant pool —
    /// never deduplicated, each occurrence gets a fresh slot — and load it.
    /// A string literal is interned first.
    pub fn visit_expr_basic_lit(&mut self, blit: &BasicLit) -> (r: Result<(), CgError>)
        requires
            old(self).wf(),
            old(self).in_func(),
            old(self).current_pkg is Some,
        ensures
            final(self).wf(),
            final(self).in_func(),
            final(self).current_pkg is Some,
            visit_frame(*old(self), *final(self)),
            builder_extends(old(self).builders@.last(), final(self).builders@.last()),
            final(self).builders@.last().local_alloc == old(self).builders@.last().local_alloc,
            ({
                let f0 = old(self).builders@.last();
                let f1 = final(self).builders@.last();
                let skey = old(self).objects.strings@.len() as int;
                match blit.token {
                    Token::Imag => r == Err::<(), CgError>(
                        CgError::Unsupported(Construct::ImagLit),
                    ) && *final(self) == *old(self),
                    Token::Char => r == Err::<(), CgError>(
                        CgError::Unsupported(Construct::CharLit),
                    ) && *final(self) == *old(self),
                    _ => if f0.consts@.len() > MAX_OP_INDEX {
                        r == Err::<(), CgError>(CgError::Internal(Violation::IndexOverflow))
                    } else {
                        &&& r == Ok::<(), CgError>(())
                        &&& f1.consts@ == f0.consts@.push(lit_value(blit.token, skey))
                        &&& f1.code@ == f0.code@ + load_cells(
                            FnEntIndex::Const(f0.consts@.len() as OpIndex),
                        )
                        &&& (blit.token matches Token::Str(st) ==> final(self).objects.strings@
                            == old(self).objects.strings@.push(
                            StringVal { dark: false, data: st },
                        ))
                        &&& (!(blit.token is Str) ==> final(self).objects.strings == old(self).objects.strings)
                    },
                }
            }),
            ({
                match m_basic_lit(old(self).m(), blit.token) {
                    Some(s1) => r == Ok::<(), CgError>(()) && final(self).m() == s1,
                    None => r is Err,
                }
            }),
    {
        let ghost s0 = *self;
        proof {
            lemma_frame_refl(s0);
            lemma_extends_refl(s0.builders@.last());
        }
        let val = match &blit.token {
            Token::Int(i) => GosValue::Int(*i),
            Token::Float(b) => GosValue::Float(*b),
            Token::Imag => {
                return Err(CgError::Unsupported(Construct::ImagLit));
            },
            Token::Char => {
                return Err(CgError::Unsupported(Construct::CharLit));
            },
            Token::Str(st) => {
                let sv = StringVal { dark: false, data: st.clone() };
                self.objects.strings.push(sv);
                GosValue::Str(self.objects.strings.len() - 1)
            },
        };
        let ghost mid = *self;
        proof {
            lemma_prefix_push(s0.objects.strings@, mid.objects.strings@);
            lemma_prefix_refl(mid.objects.functions@);
            if blit.token is Str {
                assert(mid.m() =~~= CgB {
                    strings: s0.m().strings.push(
                        StringVal { dark: false, data: blit.token->Str_0 },
                    ),
                    ..s0.m()
                });
            }
            assert(val == lit_value(blit.token, s0.objects.strings@.len() as int));
            assert(m_cur(mid.m()) == mid.builders@.last().m());
        }
        let mut fb = match self.builders.pop() {
            Some(f) => f,
            None => unreached(),
        };
        let rr = fb.add_const(None, val);
        match rr {
            Ok(idx) => {
                fb.emit_load(idx);
                self.builders.push(fb);
                proof {
                    assert(self.builders@ =~= mid.builders@.update(
                        mid.builders@.len() - 1,
                        self.builders@.last(),
                    ));
                    lemma_prefix_extend(mid.builders@.last().code@, load_cells(idx));
                    lemma_prefix_push(
                        mid.builders@.last().consts@,
                        self.builders@.last().consts@,
                    );
                    lemma_prefix_refl(self.builders@.last().up_ptrs@);
                    lemma_prefix_refl(self.builders@.last().entities@);
                    lemma_m_set_cur(mid, *self);
                    assert(m_add_const(m_cur(mid.m()), val) is Some);
                    assert(self.builders@.last().m() =~~= FnB {
                        code: m_cur(mid.m()).code + load_cells(idx),
                        consts: m_cur(mid.m()).consts.push(val),
                        ..m_cur(mid.m())
                    });
                    assert(self.m() =~~= m_emit(
                        m_set_cur(mid.m(), (m_add_const(m_cur(mid.m()), val)->0).0),
                        load_cells((m_add_const(m_cur(mid.m()), val)->0).1),
                    ));
                }
                Ok(())
            },
            Err(e) => {
                self.builders.push(fb);
                proof {
                    assert(self.builders@ =~= mid.builders@.update(
                        mid.builders@.len() - 1,
                        self.builders@.last(),
                    ));
                    assert(self.builders@ =~= mid.builders@);
                    lemma_extends_refl(self.builders@.last());
                    assert(m_add_const(m_cur(mid.m()), val) is None);
                }
                Err(e)
            },
        }
    }

    /// Compile a function literal: compile the function itself in a builder
    /// of its own, seal it, add the sealed function to the enclosing
    /// function's constant pool, load that constant, and materialize the
    /// closure over its open captured-variable descriptors.
    pub fn visit_expr_func_lit(&mut self, flit: &FuncLit) -> (r: Result<(), CgError>)
        requires
            old(self).wf(),
            old(self).in_func(),
            old(self).current_pkg is Some,
        ensures
            final(self).wf(),
            final(self).in_func(),
            final(self).current_pkg is Some,
            visit_frame(*old(self), *final(self)),
            builder_extends(old(self).builders@.last(), final(self).builders@.last()),
            final(self).builders@.last().local_alloc == old(self).builders@.last().local_alloc,
            r is Ok ==> ({
                let f0 = old(self).builders@.last();
                let f1 = final(self).builders@.last();
                let fk = old(self).objects.functions@.len();
                &&& f1.consts@ == f0.consts@.push(GosValue::Function(fk as usize))
                &&& f1.code@ == f0.code@ + load_cells(FnEntIndex::Const(f0.consts@.len() as OpIndex))
                    + seq![CodeData::Code(Opcode::NEW_CLOSURE)]
                &&& (fk as usize) < final(self).objects.functions@.len()
            }),
            ({
                match m_func_def(old(self).m(), flit.typ, flit.body) {
                    Some(pair) => match m_add_const(m_cur(pair.0), GosValue::Function(pair.1)) {
                        Some(cp) => r == Ok::<(), CgError>(()) && final(self).m() == m_emit(
                            m_set_cur(pair.0, cp.0),
                            load_cells(cp.1) + seq![CodeData::Code(Opcode::NEW_CLOSURE)],
                        ),
                        None => r is Err,
                    },
                    None => r is Err,
                }
            }),
        decreases flit, 2int,
    {
        let ghost s0 = *self;
        let fkey = match self.gen_func_def(&flit.typ, &flit.body) {
            Ok(k) => k,
            Err(e) => {
                proof {
                    lemma_extends_refl(self.builders@.last());
                }
                return Err(e);
            },
        };
        let ghost mid = *self;
        let mut fb = match self.builders.pop() {
            Some(f) => f,
            None => unreached(),
        };
        let rr = fb.add_const(None, GosValue::Function(fkey));
        match rr {
            Ok(idx) => {
                fb.emit_load(idx);
                fb.emit_new_closure();
                self.builders.push(fb);
                proof {
                    assert(self.builders@ =~= mid.builders@.update(
                        mid.builders@.len() - 1,
                        self.builders@.last(),
                    ));
                    assert(self.builders@.last().code@ =~= mid.builders@.last().code@
                        + load_cells(idx) + seq![CodeData::Code(Opcode::NEW_CLOSURE)]);
                    lemma_prefix_extend(
                        mid.builders@.last().code@,
                        load_cells(idx) + seq![CodeData::Code(Opcode::NEW_CLOSURE)],
                    );
                    assert(mid.builders@.last().code@ + (load_cells(idx) + seq![
                        CodeData::Code(Opcode::NEW_CLOSURE),
                    ]) =~= self.builders@.last().code@);
                    lemma_prefix_push(
                        mid.builders@.last().consts@,
                        self.builders@.last().consts@,
                    );
                    lemma_prefix_refl(self.builders@.last().up_ptrs@);
                    lemma_prefix_refl(self.builders@.last().entities@);
                    lemma_m_set_cur(mid, *self);
                    assert(m_cur(mid.m()) == mid.builders@.last().m());
                    assert(m_add_const(m_cur(mid.m()), GosValue::Function(fkey)) is Some);
                    assert(self.builders@.last().m() =~~= FnB {
                        code: m_cur(mid.m()).code + (load_cells(idx) + seq![
                            CodeData::Code(Opcode::NEW_CLOSURE),
                        ]),
                        consts: m_cur(mid.m()).consts.push(GosValue::Function(fkey)),
                        ..m_cur(mid.m())
                    });
                    assert(self.m() =~~= m_emit(
                        m_set_cur(
                            mid.m(),
                            (m_add_const(m_cur(mid.m()), GosValue::Function(fkey))->0).0,
                        ),
                        load_cells(idx) + seq![CodeData::Code(Opcode::NEW_CLOSURE)],
                    ));
                }
                Ok(())
            },
            Err(e) => {
                self.builders.push(fb);
                proof {
                    assert(self.builders@ =~= mid.builders@);
                    lemma_extends_refl(self.builders@.last());
                    assert(m_cur(mid.m()) == mid.builders@.last().m());
                    assert(m_add_const(m_cur(mid.m()), GosValue::Function(fkey)) is None);
                }
                Err(e)
            },
        }
    }

    /// Compile a call: the callee expression first, then the begin-call
    /// marker, then the arguments left to right, then the perform-call
    /// instruction; the begin/perform pair brackets the variable-length
    /// argument sequence.
    pub fn visit_expr_call(&mut self, call: &CallExpr) -> (r: Result<(), CgError>)
        requires
            old(self).wf(),
            old(self).in_func(),
            old(self).current_pkg is Some,
        ensures
            final(self).wf(),
            final(self).in_func(),
            final(self).current_pkg is Some,
            visit_frame(*old(self), *final(self)),
            builder_extends(old(self).builders@.last(), final(self).builders@.last()),
            final(self).builders@.last().local_alloc == old(self).builders@.last().local_alloc,
            ({
                match m_expr(old(self).m(), *call.func) {
                    Some(s1) => {
                        let s2 = m_emit(s1, seq![CodeData::Code(Opcode::PRE_CALL)]);
                        match m_exprs(s2, call.args@) {
                            Some(s3) => r == Ok::<(), CgError>(()) && final(self).m() == m_emit(
                                s3,
                                seq![CodeData::Code(Opcode::CALL)],
                            ),
                            None => r is Err,
                        }
                    },
                    None => r is Err,
                }
            }),
        decreases call, 2int,
    {
        let ghost s0 = *self;
        match self.visit_expr(&call.func) {
            Ok(()) => {},
            Err(e) => {
                return Err(e);
            },
        }
        let ghost m1 = *self;
        let mut fb = match self.builders.pop() {
            Some(f) => f,
            None => unreached(),
        };
        fb.emit_pre_call();
        self.builders.push(fb);
        proof {
            assert(self.builders@ =~= m1.builders@.update(
                m1.builders@.len() - 1,
                self.builders@.last(),
            ));
            lemma_prefix_extend(
                m1.builders@.last().code@,
                seq![CodeData::Code(Opcode::PRE_CALL)],
            );
            lemma_prefix_refl(self.builders@.last().consts@);
            lemma_prefix_refl(self.builders@.last().up_ptrs@);
            lemma_prefix_refl(self.builders@.last().entities@);
            lemma_prefix_refl(self.objects.functions@);
            lemma_prefix_refl(self.objects.strings@);
            lemma_frame_trans(s0, m1, *self);
            lemma_extends_trans(s0.builders@.last(), m1.builders@.last(), self.builders@.last());
            lemma_m_set_cur(m1, *self);
            assert(m_cur(m1.m()) == m1.builders@.last().m());
            assert(self.builders@.last().m() =~~= FnB {
                code: m_cur(m1.m()).code + seq![CodeData::Code(Opcode::PRE_CALL)],
                ..m_cur(m1.m())
            });
            assert(self.m() == m_emit(m1.m(), seq![CodeData::Code(Opcode::PRE_CALL)]));
            assert(call.args@.skip(0) =~= call.args@);
        }
        let n = call.args.len();
        let mut i: usize = 0;
        while i < n
            invariant
                i <= call.args@.len(),
                n == call.args@.len(),
                self.wf(),
                self.in_func(),
                self.current_pkg is Some,
                visit_frame(*old(self), *self),
                builder_extends(old(self).builders@.last(), self.builders@.last()),
                self.builders@.last().local_alloc == old(self).builders@.last().local_alloc,
                ({
                    match m_expr(old(self).m(), *call.func) {
                        Some(s1) => m_exprs(
                            m_emit(s1, seq![CodeData::Code(Opcode::PRE_CALL)]),
                            call.args@,
                        ) == m_exprs(self.m(), call.args@.skip(i as int)),
                        None => false,
                    }
                }),
            decreases n - i,
        {
            let ghost mid = *self;
            proof {
                assert(call.args@.skip(i as int)[0] == call.args@[i as int]);
                assert(call.args@.skip(i as int).subrange(
                    1,
                    call.args@.skip(i as int).len() as int,
                ) =~= call.args@.skip(i as int + 1));
            }
            match self.visit_expr(&call.args[i]) {
                Ok(()) => {},
                Err(e) => {
                    proof {
                        lemma_frame_trans(*old(self), mid, *self);
                        lemma_extends_trans(
                            old(self).builders@.last(),
                            mid.builders@.last(),
                            self.builders@.last(),
                        );
                    }
                    return Err(e);
                },
            }
            proof {
                lemma_frame_trans(*old(self), mid, *self);
                lemma_extends_trans(
                    old(self).builders@.last(),
                    mid.builders@.last(),
                    self.builders@.last(),
                );
            }
            i = i + 1;
        }
        let ghost m2 = *self;
        let mut fb = match self.builders.pop() {
            Some(f) => f,
            None => unreached(),
        };
        fb.emit_call(n);
        self.builders.push(fb);
        proof {
            assert(self.builders@ =~= m2.builders@.update(
                m2.builders@.len() - 1,
                self.builders@.last(),
            ));
            lemma_prefix_extend(m2.builders@.last().code@, seq![CodeData::Code(Opcode::CALL)]);
            lemma_prefix_refl(self.builders@.last().consts@);
            lemma_prefix_refl(self.builders@.last().up_ptrs@);
            lemma_prefix_refl(self.builders@.last().entities@);
            lemma_prefix_refl(self.objects.functions@);
            lemma_prefix_refl(self.objects.strings@);
            lemma_frame_trans(*old(self), m2, *self);
            lemma_extends_trans(
                old(self).builders@.last(),
                m2.builders@.last(),
                self.builders@.last(),
            );
            assert(call.args@.skip(n as int) =~= Seq::<Expr>::empty());
            lemma_m_set_cur(m2, *self);
            assert(m_cur(m2.m()) == m2.builders@.last().m());
            assert(self.builders@.last().m() =~~= FnB {
                code: m_cur(m2.m()).code + seq![CodeData::Code(Opcode::CALL)],
                ..m_cur(m2.m())
            });
            assert(self.m() == m_emit(m2.m(), seq![CodeData::Code(Opcode::CALL)]));
        }
        Ok(())
    }

    /// Compile a binary operation: both operands left to right, then the
    /// primitive call the operator lowers to.
    pub fn visit_expr_binary(&mut self, bin: &BinaryExpr) -> (r: Result<(), CgError>)
        requires
            old(self).wf(),
            old(self).in_func(),
            old(self).current_pkg is Some,
        ensures
            final(self).wf(),
            final(self).in_func(),
            final(self).current_pkg is Some,
            visit_frame(*old(self), *final(self)),
            builder_extends(old(self).builders@.last(), final(self).builders@.last()),
            final(self).builders@.last().local_alloc == old(self).builders@.last().local_alloc,
            ({
                match m_expr(old(self).m(), *bin.left) {
                    Some(s1) => match m_expr(s1, *bin.right) {
                        Some(s2) => if binary_supported(bin.op) {
                            r == Ok::<(), CgError>(()) && final(self).m() == m_emit(
                                s2,
                                binary_cells(bin.op),
                            )
                        } else {
                            r is Err
                        },
                        None => r is Err,
                    },
                    None => r is Err,
                }
            }),
        decreases bin, 2int,
    {
        let ghost s0 = *self;
        match self.visit_expr(&bin.left) {
            Ok(()) => {},
            Err(e) => {
                return Err(e);
            },
        }
        let ghost m1 = *self;
        match self.visit_expr(&bin.right) {
            Ok(()) => {},
            Err(e) => {
                proof {
                    lemma_frame_trans(s0, m1, *self);
                    lemma_extends_trans(
                        s0.builders@.last(),
                        m1.builders@.last(),
                        self.builders@.last(),
                    );
                }
                return Err(e);
            },
        }
        proof {
            lemma_frame_trans(s0, m1, *self);
            lemma_extends_trans(s0.builders@.last(), m1.builders@.last(), self.builders@.last());
        }
        let ghost m2 = *self;
        let mut fb = match self.builders.pop() {
            Some(f) => f,
            None => unreached(),
        };
        let rr = fb.emit_binary_primi_call(bin.op);
        self.builders.push(fb);
        proof {
            assert(self.builders@ =~= m2.builders@.update(
                m2.builders@.len() - 1,
                self.builders@.last(),
            ));
            if binary_supported(bin.op) {
                lemma_prefix_extend(m2.builders@.last().code@, binary_cells(bin.op));
            } else {
                assert(self.builders@ =~= m2.builders@);
                lemma_prefix_refl(self.builders@.last().code@);
            }
            lemma_prefix_refl(self.builders@.last().consts@);
            lemma_prefix_refl(self.builders@.last().up_ptrs@);
            lemma_prefix_refl(self.builders@.last().entities@);
            lemma_prefix_refl(self.objects.functions@);
            lemma_prefix_refl(self.objects.strings@);
            lemma_frame_trans(*old(self), m2, *self);
            lemma_extends_trans(
                old(self).builders@.last(),
                m2.builders@.last(),
                self.builders@.last(),
            );
            lemma_m_set_cur(m2, *self);
            assert(m_cur(m2.m()) == m2.builders@.last().m());
            if binary_supported(bin.op) {
                assert(self.builders@.last().m() =~~= FnB {
                    code: m_cur(m2.m()).code + binary_cells(bin.op),
                    ..m_cur(m2.m())
                });
                assert(self.m() == m_emit(m2.m(), binary_cells(bin.op)));
            }
        }
        rr
    }

    /// Compile one expression, dispatching on its kind; a kind with no
    /// defined lowering aborts as an unsupported construct. Expressions
    /// never declare local slots.
    pub fn visit_expr(&mut self, expr: &Expr) -> (r: Result<(), CgError>)
        requires
            old(self).wf(),
            old(self).in_func(),
            old(self).current_pkg is Some,
        ensures
            final(self).wf(),
            final(self).in_func(),
            final(self).current_pkg is Some,
            visit_frame(*old(self), *final(self)),
            builder_extends(old(self).builders@.last(), final(self).builders@.last()),
            final(self).builders@.last().local_alloc == old(self).builders@.last().local_alloc,
            ({
                match m_expr(old(self).m(), *expr) {
                    Some(s1) => r == Ok::<(), CgError>(()) && final(self).m() == s1,
                    None => r is Err,
                }
            }),
        decreases expr, 3int,
    {
        proof {
            lemma_frame_refl(*old(self));
            lemma_extends_refl(old(self).builders@.last());
        }
        match expr {
            Expr::Ident(id) => {
                proof {
                    assert(*expr == Expr::Ident(*id));
                }
                let rr = self.visit_expr_ident(id);
                proof {
                    assert(m_expr(old(self).m(), *expr) == (match m_resolve(
                        old(self).m(),
                        *id,
                    ) {
                        Some(pair) => Some(m_emit(pair.0, load_cells(pair.1))),
                        None => None::<CgB>,
                    }));
                }
                rr
            },
            Expr::BasicLit(blit) => {
                proof {
                    assert(*expr == Expr::BasicLit(*blit));
                }
                let rr = self.visit_expr_basic_lit(blit);
                proof {
                    assert(m_expr(old(self).m(), *expr) == m_basic_lit(
                        old(self).m(),
                        blit.token,
                    ));
                }
                rr
            },
            Expr::FuncLit(flit) => {
                proof {
                    assert(*expr == Expr::FuncLit(*flit));
                }
                let rr = self.visit_expr_func_lit(flit);
                proof {
                    assert(m_expr(old(self).m(), *expr) == (match m_func_def(
                        old(self).m(),
                        flit.typ,
                        flit.body,
                    ) {
                        Some(pair) => match m_add_const(
                            m_cur(pair.0),
                            GosValue::Function(pair.1),
                        ) {
                            Some(cp) => Some(
                                m_emit(
                                    m_set_cur(pair.0, cp.0),
                                    load_cells(cp.1) + seq![CodeData::Code(Opcode::NEW_CLOSURE)],
                                ),
                            ),
                            None => None::<CgB>,
                        },
                        None => None::<CgB>,
                    }));
                }
                rr
            },
            Expr::Call(call) => {
                proof {
                    assert(*expr == Expr::Call(*call));
                }
                let rr = self.visit_expr_call(call);
                proof {
                    assert(m_expr(old(self).m(), *expr) == (match m_expr(
                        old(self).m(),
                        *call.func,
                    ) {
                        Some(s1) => {
                            let s2 = m_emit(s1, seq![CodeData::Code(Opcode::PRE_CALL)]);
                            match m_exprs(s2, call.args@) {
                                Some(s3) => Some(
                                    m_emit(s3, seq![CodeData::Code(Opcode::CALL)]),
                                ),
                                None => None::<CgB>,
                            }
                        },
                        None => None::<CgB>,
                    }));
                }
                rr
            },
            Expr::Binary(bin) => {
                proof {
                    assert(*expr == Expr::Binary(*bin));
                }
                let rr = self.visit_expr_binary(bin);
                proof {
                    assert(m_expr(old(self).m(), *expr) == (match m_expr(
                        old(self).m(),
                        *bin.left,
                    ) {
                        Some(s1) => match m_expr(s1, *bin.right) {
                            Some(s2) => if binary_supported(bin.op) {
                                Some(m_emit(s2, binary_cells(bin.op)))
                            } else {
                                None::<CgB>
                            },
                            None => None::<CgB>,
                        },
                        None => None::<CgB>,
                    }));
                }
                rr
            },
            Expr::CompositeLit => Err(CgError::Unsupported(Construct::CompositeLitExpr)),
            Expr::Paren(_) => Err(CgError::Unsupported(Construct::ParenExpr)),
            Expr::Selector(_, _) => Err(CgError::Unsupported(Construct::SelectorExpr)),
            Expr::Index => Err(CgError::Unsupported(Construct::IndexExpr)),
            Expr::Slice => Err(CgError::Unsupported(Construct::SliceExpr)),
            Expr::TypeAssert => Err(CgError::Unsupported(Construct::TypeAssertExpr)),
            Expr::Star => Err(CgError::Unsupported(Construct::StarExpr)),
            Expr::Unary => Err(CgError::Unsupported(Construct::UnaryExpr)),
            Expr::KeyValue => Err(CgError::Unsupported(Construct::KeyValueExpr)),
            Expr::Ellipsis => Err(CgError::Unsupported(Construct::EllipsisExpr)),
            Expr::ArrayType => Err(CgError::Unsupported(Construct::TypeLitExpr)),
            Expr::SliceType => Err(CgError::Unsupported(Construct::TypeLitExpr)),
            Expr::StructType => Err(CgError::Unsupported(Construct::TypeLitExpr)),
            Expr::FuncTypeExpr => Err(CgError::Unsupported(Construct::TypeLitExpr)),
            Expr::InterfaceType => Err(CgError::Unsupported(Construct::TypeLitExpr)),
            Expr::MapType => Err(CgError::Unsupported(Construct::TypeLitExpr)),
            Expr::ChanType => Err(CgError::Unsupported(Construct::TypeLitExpr)),
        }
    }

    /// Compile one statement, dispatching on its kind; a kind with no
    /// defined lowering aborts as an unsupported construct. On success the
    /// active builder has allocated exactly the local slots the statement
    /// declares.
    pub fn visit_stmt(&mut self, stmt: &Stmt) -> (r: Result<(), CgError>)
        requires
            old(self).wf(),
            old(self).in_func(),
            old(self).current_pkg is Some,
        ensures
            final(self).wf(),
            final(self).in_func(),
            final(self).current_pkg is Some,
            visit_frame(*old(self), *final(self)),
            builder_extends(old(self).builders@.last(), final(self).builders@.last()),
            r is Ok ==> final(self).builders@.last().local_alloc == old(self).builders@.last().local_alloc + stmt_locals(*stmt),
            ({
                match m_stmt(old(self).m(), *stmt) {
                    Some(s1) => r == Ok::<(), CgError>(()) && final(self).m() == s1,
                    None => r is Err,
                }
            }),
        decreases stmt, 4int,
    {
        proof {
            lemma_frame_refl(*old(self));
            lemma_extends_refl(old(self).builders@.last());
        }
        match stmt {
            Stmt::Assign(astmt) => {
                proof {
                    assert(*stmt == Stmt::Assign(*astmt));
                }
                self.visit_stmt_assign(astmt)
            },
            Stmt::Return(rstmt) => {
                proof {
                    assert(*stmt == Stmt::Return(*rstmt));
                }
                self.visit_stmt_return(rstmt)
            },
            Stmt::Block(bstmt) => {
                proof {
                    assert(*stmt == Stmt::Block(*bstmt));
                }
                self.visit_stmt_block(bstmt)
            },
            Stmt::Expr(e) => {
                proof {
                    assert(*stmt == Stmt::Expr(*e));
                }
                self.visit_expr(e)
            },
            Stmt::Decl => Err(CgError::Unsupported(Construct::GenDeclStmt)),
            Stmt::Labeled => Err(CgError::Unsupported(Construct::LabeledStmt)),
            Stmt::Send => Err(CgError::Unsupported(Construct::SendStmt)),
            Stmt::IncDec => Err(CgError::Unsupported(Construct::IncDecStmt)),
            Stmt::Go => Err(CgError::Unsupported(Construct::GoStmt)),
            Stmt::Defer => Err(CgError::Unsupported(Construct::DeferStmt)),
            Stmt::Branch => Err(CgError::Unsupported(Construct::BranchStmt)),
            Stmt::If => Err(CgError::Unsupported(Construct::IfStmt)),
            Stmt::Case => Err(CgError::Unsupported(Construct::CaseClause)),
            Stmt::Switch => Err(CgError::Unsupported(Construct::SwitchStmt)),
            Stmt::TypeSwitch => Err(CgError::Unsupported(Construct::TypeSwitchStmt)),
            Stmt::Comm => Err(CgError::Unsupported(Construct::CommClause)),
            Stmt::Select => Err(CgError::Unsupported(Construct::SelectStmt)),
            Stmt::For => Err(CgError::Unsupported(Construct::ForStmt)),
            Stmt::Range => Err(CgError::Unsupported(Construct::RangeStmt)),
        }
    }

    /// Compile an assignment. All left-hand targets are resolved — or, in a
    /// defining assignment, declared — before any right-hand expression is
    /// evaluated; the right-hand expressions are compiled in source order;
    /// the stores are emitted in reverse target order, matching the stack's
    /// last-in-first-out discipline.
    #[verifier::rlimit(60)]
    pub fn visit_stmt_assign(&mut self, astmt: &AssignStmt) -> (r: Result<(), CgError>)
        requires
            old(self).wf(),
            old(self).in_func(),
            old(self).current_pkg is Some,
        ensures
            final(self).wf(),
            final(self).in_func(),
            final(self).current_pkg is Some,
            visit_frame(*old(self), *final(self)),
            builder_extends(old(self).builders@.last(), final(self).builders@.last()),
            r is Ok ==> final(self).builders@.last().local_alloc == old(self).builders@.last().local_alloc + (if astmt.op is Define {
                define_target_count(astmt.lhs@)
            } else {
                0nat
            }),
            ({
                match m_assign(old(self).m(), *astmt) {
                    Some(s1) => r == Ok::<(), CgError>(()) && final(self).m() == s1,
                    None => r is Err,
                }
            }),
        decreases astmt, 5int,
    {
        let is_def = match astmt.op {
            AssignOp::Define => true,
            AssignOp::Assign => false,
        };
        proof {
            lemma_frame_refl(*old(self));
            lemma_extends_refl(old(self).builders@.last());
            assert(astmt.lhs@.take(0) =~= Seq::<Expr>::empty());
            assert(astmt.lhs@.skip(0) =~= astmt.lhs@);
        }
        // handle the left-hand side first
        let mut locals: Vec<FnEntIndex> = Vec::new();
        proof {
            let mt = m_targets(old(self).m(), astmt.lhs@, is_def);
            if mt is Some {
                assert(locals@ + (mt->0).1 =~= (mt->0).1);
            }
        }
        let nl = astmt.lhs.len();
        let mut i: usize = 0;
        while i < nl
            invariant
                i <= astmt.lhs@.len(),
                nl == astmt.lhs@.len(),
                locals@.len() == i,
                is_def == (astmt.op is Define),
                ({
                    match m_targets(self.m(), astmt.lhs@.skip(i as int), is_def) {
                        Some(p) => m_targets(old(self).m(), astmt.lhs@, is_def) == Some(
                            (p.0, locals@ + p.1),
                        ),
                        None => m_targets(old(self).m(), astmt.lhs@, is_def) is None,
                    }
                }),
                self.wf(),
                self.in_func(),
                self.current_pkg is Some,
                visit_frame(*old(self), *self),
                builder_extends(old(self).builders@.last(), self.builders@.last()),
                self.builders@.last().local_alloc as int == old(self).builders@.last().local_alloc + (if is_def {
                    define_target_count(astmt.lhs@.take(i as int)) as int
                } else {
                    0
                }),
            decreases nl - i,
        {
            let ghost mid = *self;
            let ghost locals0 = locals@;
            proof {
                assert(astmt.lhs@.skip(i as int)[0] == astmt.lhs@[i as int]);
                assert(astmt.lhs@.skip(i as int).subrange(
                    1,
                    astmt.lhs@.skip(i as int).len() as int,
                ) =~= astmt.lhs@.skip(i as int + 1));
            }
            match &astmt.lhs[i] {
                Expr::Ident(id) => {
                    proof {
                        assert(astmt.lhs@[i as int] == Expr::Ident(*id));
                    }
                    if id.is_blank() {
                        locals.push(FnEntIndex::Blank);
                    } else if is_def {
                        let mut fb = match self.builders.pop() {
                            Some(f) => f,
                            None => unreached(),
                        };
                        let rr = fb.add_local(id.entity);
                        self.builders.push(fb);
                        proof {
                            assert(self.builders@ =~= mid.builders@.update(
                                mid.builders@.len() - 1,
                                self.builders@.last(),
                            ));
                        }
                        match rr {
                            Ok(idx) => {
                                locals.push(idx);
                                proof {
                                    lemma_prefix_refl(self.builders@.last().code@);
                                    lemma_prefix_refl(self.builders@.last().consts@);
                                    lemma_prefix_refl(self.builders@.last().up_ptrs@);
                                    lemma_prefix_push(
                                        mid.builders@.last().entities@,
                                        self.builders@.last().entities@,
                                    );
                                    lemma_extends_trans(
                                        old(self).builders@.last(),
                                        mid.builders@.last(),
                                        self.builders@.last(),
                                    );
                                    lemma_m_set_cur(mid, *self);
                                    assert(m_cur(mid.m()) == mid.builders@.last().m());
                                    assert(m_add_local(m_cur(mid.m()), id.entity) is Some);
                                    assert((m_add_local(m_cur(mid.m()), id.entity)->0).1 == idx);
                                    assert((m_add_local(m_cur(mid.m()), id.entity)->0).0
                                        =~~= self.builders@.last().m());
                                }
                            },
                            Err(e) => {
                                proof {
                                    assert(self.builders@ =~= mid.builders@);
                                    assert(m_cur(mid.m()) == mid.builders@.last().m());
                                    assert(m_add_local(m_cur(mid.m()), id.entity) is None);
                                    assert(m_targets(
                                        mid.m(),
                                        astmt.lhs@.skip(i as int),
                                        is_def,
                                    ) is None);
                                }
                                return Err(e);
                            },
                        }
                    } else {
                        let ghost m2 = *self;
                        match self.resolve_ident(id) {
                            Ok(idx) => {
                                locals.push(idx);
                                proof {
                                    lemma_frame_trans(*old(self), m2, *self);
                                    lemma_prefix_refl(self.builders@.last().code@);
                                    lemma_prefix_refl(self.builders@.last().consts@);
                                    lemma_extends_trans(
                                        old(self).builders@.last(),
                                        m2.builders@.last(),
                                        self.builders@.last(),
                                    );
                                }
                            },
                            Err(e) => {
                                proof {
                                    lemma_frame_trans(*old(self), m2, *self);
                                    lemma_prefix_refl(self.builders@.last().code@);
                                    lemma_prefix_refl(self.builders@.last().consts@);
                                    lemma_extends_trans(
                                        old(self).builders@.last(),
                                        m2.builders@.last(),
                                        self.builders@.last(),
                                    );
                                }
                                return Err(e);
                            },
                        }
                    }
                },
                _ => {
                    return Err(CgError::Internal(Violation::NonIdentTarget));
                },
            }
            proof {
                lemma_define_step(astmt.lhs@, i as int);
                assert(locals@ == locals0.push(locals@.last()));
                let suff = m_targets(self.m(), astmt.lhs@.skip(i as int + 1), is_def);
                if suff is Some {
                    assert(locals0 + (seq![locals@.last()] + (suff->0).1) =~= locals@ + (
                    suff->0).1);
                }
            }
            i = i + 1;
        }
        proof {
            assert(astmt.lhs@.take(nl as int) =~= astmt.lhs@);
            assert(astmt.lhs@.skip(nl as int) =~= Seq::<Expr>::empty());
            let mt = m_targets(old(self).m(), astmt.lhs@, is_def);
            if mt is Some {
                assert(locals@ + Seq::<FnEntIndex>::empty() =~= locals@);
            }
            assert(astmt.rhs@.skip(0) =~= astmt.rhs@);
        }
        // handle the right-hand side, in source order
        let nr = astmt.rhs.len();
        let mut k: usize = 0;
        while k < nr
            invariant
                k <= astmt.rhs@.len(),
                nr == astmt.rhs@.len(),
                is_def == (astmt.op is Define),
                self.wf(),
                self.in_func(),
                self.current_pkg is Some,
                visit_frame(*old(self), *self),
                builder_extends(old(self).builders@.last(), self.builders@.last()),
                self.builders@.last().local_alloc as int == old(self).builders@.last().local_alloc + (if is_def {
                    define_target_count(astmt.lhs@) as int
                } else {
                    0
                }),
                ({
                    match m_targets(old(self).m(), astmt.lhs@, is_def) {
                        Some(p) => p.1 == locals@ && m_exprs(p.0, astmt.rhs@) == m_exprs(
                            self.m(),
                            astmt.rhs@.skip(k as int),
                        ),
                        None => false,
                    }
                }),
            decreases nr - k,
        {
            let ghost mid = *self;
            proof {
                assert(astmt.rhs@.skip(k as int)[0] == astmt.rhs@[k as int]);
                assert(astmt.rhs@.skip(k as int).subrange(
                    1,
                    astmt.rhs@.skip(k as int).len() as int,
                ) =~= astmt.rhs@.skip(k as int + 1));
            }
            match self.visit_expr(&astmt.rhs[k]) {
                Ok(()) => {},
                Err(e) => {
                    proof {
                        lemma_frame_trans(*old(self), mid, *self);
                        lemma_extends_trans(
                            old(self).builders@.last(),
                            mid.builders@.last(),
                            self.builders@.last(),
                        );
                    }
                    return Err(e);
                },
            }
            proof {
                lemma_frame_trans(*old(self), mid, *self);
                lemma_extends_trans(
                    old(self).builders@.last(),
                    mid.builders@.last(),
                    self.builders@.last(),
                );
            }
            k = k + 1;
        }
        // the values are now on the stack: store them to the targets, in
        // reverse of the targets' left-to-right order
        let ghost m3 = *self;
        let mut fb = match self.builders.pop() {
            Some(f) => f,
            None => unreached(),
        };
        let rr = fb.emit_stores(&locals);
        self.builders.push(fb);
        proof {
            assert(self.builders@ =~= m3.builders@.update(
                m3.builders@.len() - 1,
                self.builders@.last(),
            ));
            lemma_prefix_refl(self.builders@.last().consts@);
            lemma_prefix_refl(self.builders@.last().up_ptrs@);
            lemma_prefix_refl(self.builders@.last().entities@);
            lemma_prefix_refl(self.objects.functions@);
            lemma_prefix_refl(self.objects.strings@);
            lemma_frame_trans(*old(self), m3, *self);
            lemma_extends_trans(
                old(self).builders@.last(),
                m3.builders@.last(),
                self.builders@.last(),
            );
            assert(astmt.rhs@.skip(nr as int) =~= Seq::<Expr>::empty());
            lemma_m_set_cur(m3, *self);
            assert(m_cur(m3.m()) == m3.builders@.last().m());
            if stores_result(locals@) is None {
                assert(self.builders@.last().m() =~~= FnB {
                    code: m_cur(m3.m()).code + stores_emitted(locals@),
                    ..m_cur(m3.m())
                });
                assert(self.m() =~~= m_emit(m3.m(), stores_emitted(locals@)));
            }
        }
        rr
    }

    /// Compile a return statement: each result expression in order, each
    /// stored into its pre-allocated return slot — slot index equal to its
    /// position among the results — then the return instruction.
    pub fn visit_stmt_return(&mut self, rstmt: &ReturnStmt) -> (r: Result<(), CgError>)
        requires
            old(self).wf(),
            old(self).in_func(),
            old(self).current_pkg is Some,
        ensures
            final(self).wf(),
            final(self).in_func(),
            final(self).current_pkg is Some,
            visit_frame(*old(self), *final(self)),
            builder_extends(old(self).builders@.last(), final(self).builders@.last()),
            r is Ok ==> final(self).builders@.last().local_alloc == old(self).builders@.last().local_alloc,
            ({
                match m_results(old(self).m(), rstmt.results@, 0) {
                    Some(s1) => r == Ok::<(), CgError>(()) && final(self).m() == s1,
                    None => r is Err,
                }
            }),
        decreases rstmt, 5int,
    {
        proof {
            lemma_frame_refl(*old(self));
            lemma_extends_refl(old(self).builders@.last());
            assert(rstmt.results@.skip(0) =~= rstmt.results@);
        }
        let n = rstmt.results.len();
        let mut i: usize = 0;
        while i < n
            invariant
                i <= rstmt.results@.len(),
                n == rstmt.results@.len(),
                self.wf(),
                self.in_func(),
                self.current_pkg is Some,
                visit_frame(*old(self), *self),
                builder_extends(old(self).builders@.last(), self.builders@.last()),
                self.builders@.last().local_alloc == old(self).builders@.last().local_alloc,
                m_results(old(self).m(), rstmt.results@, 0) == m_results(
                    self.m(),
                    rstmt.results@.skip(i as int),
                    i as int,
                ),
            decreases n - i,
        {
            let ghost mid = *self;
            proof {
                assert(rstmt.results@.skip(i as int)[0] == rstmt.results@[i as int]);
                assert(rstmt.results@.skip(i as int).subrange(
                    1,
                    rstmt.results@.skip(i as int).len() as int,
                ) =~= rstmt.results@.skip(i as int + 1));
            }
            match self.visit_expr(&rstmt.results[i]) {
                Ok(()) => {},
                Err(e) => {
                    proof {
                        lemma_frame_trans(*old(self), mid, *self);
                        lemma_extends_trans(
                            old(self).builders@.last(),
                            mid.builders@.last(),
                            self.builders@.last(),
                        );
                    }
                    return Err(e);
                },
            }
            proof {
                lemma_frame_trans(*old(self), mid, *self);
                lemma_extends_trans(
                    old(self).builders@.last(),
                    mid.builders@.last(),
                    self.builders@.last(),
                );
            }
            if i > MAX_OP_INDEX as usize {
                proof {
                    assert(m_results(mid.m(), rstmt.results@.skip(i as int), i as int) is None);
                }
                return Err(CgError::Internal(Violation::IndexOverflow));
            }
            let ghost m2 = *self;
            let mut fb = match self.builders.pop() {
                Some(f) => f,
                None => unreached(),
            };
            let rr = fb.emit_store(FnEntIndex::LocalVar(i as OpIndex));
            self.builders.push(fb);
            match rr {
                Ok(()) => {},
                Err(_) => {
                    return unreached();
                },
            }
            proof {
                assert(self.builders@ =~= m2.builders@.update(
                    m2.builders@.len() - 1,
                    self.builders@.last(),
                ));
                lemma_prefix_extend(
                    m2.builders@.last().code@,
                    store_cells(FnEntIndex::LocalVar(i as OpIndex)),
                );
                lemma_prefix_refl(self.builders@.last().consts@);
                lemma_prefix_refl(self.builders@.last().up_ptrs@);
                lemma_prefix_refl(self.builders@.last().entities@);
                lemma_prefix_refl(self.objects.functions@);
                lemma_prefix_refl(self.objects.strings@);
                lemma_frame_trans(*old(self), m2, *self);
                lemma_extends_trans(
                    old(self).builders@.last(),
                    m2.builders@.last(),
                    self.builders@.last(),
                );
                lemma_m_set_cur(m2, *self);
                assert(m_cur(m2.m()) == m2.builders@.last().m());
                assert(self.builders@.last().m() =~~= FnB {
                    code: m_cur(m2.m()).code + store_cells(FnEntIndex::LocalVar(i as OpIndex)),
                    ..m_cur(m2.m())
                });
                assert(self.m() == m_emit(
                    m2.m(),
                    store_cells(FnEntIndex::LocalVar(i as OpIndex)),
                ));
            }
            i = i + 1;
        }
        proof {
            assert(rstmt.results@.skip(n as int) =~= Seq::<Expr>::empty());
        }
        let ghost m3 = *self;
        let mut fb = match self.builders.pop() {
            Some(f) => f,
            None => unreached(),
        };
        fb.emit_return();
        self.builders.push(fb);
        proof {
            assert(self.builders@ =~= m3.builders@.update(
                m3.builders@.len() - 1,
                self.builders@.last(),
            ));
            lemma_prefix_extend(m3.builders@.last().code@, seq![CodeData::Code(Opcode::RETURN)]);
            lemma_prefix_refl(self.builders@.last().consts@);
            lemma_prefix_refl(self.builders@.last().up_ptrs@);
            lemma_prefix_refl(self.builders@.last().entities@);
            lemma_prefix_refl(self.objects.functions@);
            lemma_prefix_refl(self.objects.strings@);
            lemma_frame_trans(*old(self), m3, *self);
            lemma_extends_trans(
                old(self).builders@.last(),
                m3.builders@.last(),
                self.builders@.last(),
            );
            lemma_m_set_cur(m3, *self);
            assert(m_cur(m3.m()) == m3.builders@.last().m());
            assert(self.builders@.last().m() =~~= FnB {
                code: m_cur(m3.m()).code + seq![CodeData::Code(Opcode::RETURN)],
                ..m_cur(m3.m())
            });
            assert(self.m() == m_emit(m3.m(), seq![CodeData::Code(Opcode::RETURN)]));
        }
        Ok(())
    }

    /// Compile a braced statement list in program order. An empty block
    /// changes nothing.
    pub fn visit_stmt_block(&mut self, block: &BlockStmt) -> (r: Result<(), CgError>)
        requires
            old(self).wf(),
            old(self).in_func(),
            old(self).current_pkg is Some,
        ensures
            final(self).wf(),
            final(self).in_func(),
            final(self).current_pkg is Some,
            visit_frame(*old(self), *final(self)),
            builder_extends(old(self).builders@.last(), final(self).builders@.last()),
            r is Ok ==> final(self).builders@.last().local_alloc == old(self).builders@.last().local_alloc + stmts_locals(block.list@),
            block.list@.len() == 0 ==> r == Ok::<(), CgError>(()) && *final(self) == *old(self),
            ({
                match m_stmts(old(self).m(), block.list@) {
                    Some(s1) => r == Ok::<(), CgError>(()) && final(self).m() == s1,
                    None => r is Err,
                }
            }),
        decreases block, 5int,
    {
        proof {
            lemma_frame_refl(*old(self));
            lemma_extends_refl(old(self).builders@.last());
            assert(block.list@.take(0) =~= Seq::<Stmt>::empty());
            assert(block.list@.skip(0) =~= block.list@);
        }
        let n = block.list.len();
        if n == 0 {
            return Ok(());
        }
        let mut i: usize = 0;
        while i < n
            invariant
                i <= block.list@.len(),
                n == block.list@.len(),
                self.wf(),
                self.in_func(),
                self.current_pkg is Some,
                visit_frame(*old(self), *self),
                builder_extends(old(self).builders@.last(), self.builders@.last()),
                self.builders@.last().local_alloc as int == old(self).builders@.last().local_alloc + stmts_locals(block.list@.take(i as int)),
                m_stmts(old(self).m(), block.list@) == m_stmts(
                    self.m(),
                    block.list@.skip(i as int),
                ),
            decreases n - i,
        {
            let ghost mid = *self;
            proof {
                assert(block.list@.skip(i as int)[0] == block.list@[i as int]);
                assert(block.list@.skip(i as int).subrange(
                    1,
                    block.list@.skip(i as int).len() as int,
                ) =~= block.list@.skip(i as int + 1));
            }
            match self.visit_stmt(&block.list[i]) {
                Ok(()) => {},
                Err(e) => {
                    proof {
                        lemma_frame_trans(*old(self), mid, *self);
                        lemma_extends_trans(
                            old(self).builders@.last(),
                            mid.builders@.last(),
                            self.builders@.last(),
                        );
                    }
                    return Err(e);
                },
            }
            proof {
                lemma_frame_trans(*old(self), mid, *self);
                lemma_extends_trans(
                    old(self).builders@.last(),
                    mid.builders@.last(),
                    self.builders@.last(),
                );
                lemma_stmts_locals_step(block.list@, i as int);
            }
            i = i + 1;
        }
        proof {
            assert(block.list@.take(n as int) =~= block.list@);
            assert(block.list@.skip(n as int) =~= Seq::<Stmt>::empty());
        }
        Ok(())
    }

    /// Compile one function: register its result fields, then its parameter
    /// fields — the slot layout is returns, then parameters, then
    /// block-scoped locals — reserve its arena key, compile the body with a
    /// fresh builder pushed on the stack, append the safety-net return
    /// instruction, and seal the record into the arena. Returns the sealed
    /// function's key.
    pub fn gen_func_def(&mut self, typ: &FuncType, body: &BlockStmt) -> (r: Result<
        FunctionKey,
        CgError,
    >)
        requires
            old(self).wf(),
            old(self).current_pkg is Some,
        ensures
            final(self).wf(),
            final(self).current_pkg == old(self).current_pkg,
            final(self).func_stack@ == old(self).func_stack@,
            final(self).builders@ == old(self).builders@,
            final(self).packages@ == old(self).packages@,
            final(self).objects.packages@ == old(self).objects.packages@,
            final(self).objects.metas@ == old(self).objects.metas@,
            final(self).objects.s_meta == old(self).objects.s_meta,
            old(self).objects.functions@.is_prefix_of(final(self).objects.functions@),
            old(self).objects.strings@.is_prefix_of(final(self).objects.strings@),
            r matches Ok(k) ==> ({
                let rec = final(self).objects.functions@[k as int];
                &&& k == old(self).objects.functions@.len()
                &&& k < final(self).objects.functions@.len()
                &&& rec.package == Some(old(self).current_pkg->0)
                &&& rec.param_count == fields_slots(typ.params.list@)
                &&& rec.ret_count == (match typ.results {
                    Some(fl) => fields_slots(fl.list@),
                    None => 0nat,
                })
                &&& rec.local_alloc == rec.ret_count + rec.param_count + stmts_locals(body.list@)
                &&& rec.wf()
                &&& rec.code@.len() >= 1
                &&& rec.code@.last() == CodeData::Code(Opcode::RETURN)
                &&& (body.list@.len() == 0 ==> rec.code@ == seq![CodeData::Code(Opcode::RETURN)])
                &&& ((match typ.results {
                    Some(fl) => fields_entries(fl.list@, 0),
                    None => Seq::<(EntityKey, FnEntIndex)>::empty(),
                }) + fields_entries(typ.params.list@, rec.ret_count as int)).is_prefix_of(
                    rec.entities@,
                )
            }),
            ({
                match m_func_def(old(self).m(), *typ, *body) {
                    Some(pair) => r == Ok::<FunctionKey, CgError>(pair.1) && final(self).m()
                        == pair.0,
                    None => r is Err,
                }
            }),
        decreases body, 6int,
    {
        let pkg = match self.current_pkg {
            Some(p) => p,
            None => unreached(),
        };
        let mut func = FunctionVal::new(Some(pkg));
        proof {
            assert(func.m() =~~= m_fresh(pkg));
            assert(pkg == old(self).m().cur_pkg);
        }
        let rc = match &typ.results {
            Some(fl) => match func.add_params(fl) {
                Ok(c) => c,
                Err(e) => {
                    proof {
                        lemma_prefix_refl(self.objects.functions@);
                        lemma_prefix_refl(self.objects.strings@);
                        assert(m_func_def(old(self).m(), *typ, *body) is None);
                    }
                    return Err(e);
                },
            },
            None => 0,
        };
        func.ret_count = rc;
        let ghost f1m = (if typ.results is Some {
            m_params(m_fresh(pkg), typ.results->0.list@)->0
        } else {
            m_fresh(pkg)
        });
        proof {
            assert(func.m() =~~= FnB { ret_count: f1m.local_alloc, ..f1m });
        }
        let ghost gf2 = func;
        let pc = match func.add_params(&typ.params) {
            Ok(c) => c,
            Err(e) => {
                proof {
                    lemma_prefix_refl(self.objects.functions@);
                    lemma_prefix_refl(self.objects.strings@);
                    assert(m_params(gf2.m(), typ.params.list@) is None);
                    assert(m_func_def(old(self).m(), *typ, *body) is None);
                }
                return Err(e);
            },
        };
        func.param_count = pc;
        proof {
            assert(func.m() =~~= FnB {
                param_count: (m_params(gf2.m(), typ.params.list@)->0.local_alloc
                    - gf2.m().local_alloc) as nat,
                ..m_params(gf2.m(), typ.params.list@)->0
            });
        }
        proof {
            match &typ.results {
                Some(fl) => {
                    lemma_fields_entries_local(fl.list@, 0);
                    lemma_fields_entries_local(typ.params.list@, fields_slots(fl.list@) as int);
                },
                None => {
                    lemma_fields_entries_local(typ.params.list@, 0);
                },
            }
            assert(func.entities_wf());
        }
        // reserve the arena key the builder's descriptors will reference
        let fkey = self.objects.functions.len();
        let placeholder = FunctionVal::new(Some(pkg));
        let ghost gf4 = func;
        self.objects.functions.push(placeholder);
        self.func_stack.push(fkey);
        self.builders.push(func);
        let ghost m1 = *self;
        proof {
            assert(fkey == old(self).m().functions.len());
            assert(m1.m() =~~= CgB {
                functions: old(self).m().functions.push(m_fresh(pkg)),
                func_stack: old(self).m().func_stack.push(fkey),
                builders: old(self).m().builders.push(gf4.m()),
                ..old(self).m()
            });
        }
        let rbody = self.visit_stmt_block(body);
        let ghost pb = *self;
        let mut func = match self.builders.pop() {
            Some(f) => f,
            None => unreached(),
        };
        let _ = self.func_stack.pop();
        proof {
            assert(self.builders@ =~= old(self).builders@);
            assert(self.func_stack@ =~= old(self).func_stack@);
            lemma_prefix_push(old(self).objects.functions@, m1.objects.functions@);
            lemma_prefix_trans(
                old(self).objects.functions@,
                m1.objects.functions@,
                self.objects.functions@,
            );
            lemma_prefix_trans(
                old(self).objects.strings@,
                m1.objects.strings@,
                self.objects.strings@,
            );
        }
        match rbody {
            Err(e) => {
                proof {
                    assert(m_stmts(m1.m(), body.list@) is None);
                    assert(m_func_def(old(self).m(), *typ, *body) is None);
                }
                Err(e)
            },
            Ok(()) => {
                // the safety net: a body that falls through still returns
                func.emit_return();
                let ghost m2 = *self;
                self.objects.functions.set(fkey, func);
                proof {
                    assert(old(self).objects.functions@ =~= self.objects.functions@.subrange(
                        0,
                        old(self).objects.functions@.len() as int,
                    ));
                    if body.list@.len() == 0 {
                        assert(Seq::<CodeData>::empty() + seq![CodeData::Code(Opcode::RETURN)]
                            =~= seq![CodeData::Code(Opcode::RETURN)]);
                    }
                    let s2m = m_stmts(m1.m(), body.list@)->0;
                    assert(pb.m() == s2m);
                    assert(func.m() =~~= FnB {
                        code: s2m.builders.last().code + seq![CodeData::Code(Opcode::RETURN)],
                        ..s2m.builders.last()
                    });
                    assert(self.m() =~~= CgB {
                        builders: s2m.builders.drop_last(),
                        func_stack: s2m.func_stack.drop_last(),
                        functions: s2m.functions.update(
                            fkey as int,
                            FnB {
                                code: s2m.builders.last().code + seq![
                                    CodeData::Code(Opcode::RETURN),
                                ],
                                ..s2m.builders.last()
                            },
                        ),
                        ..s2m
                    });
                }
                Ok(fkey)
            },
        }
    }
}


impl CodeGen {
    /// Compile a top-level function declaration: compile and seal the
    /// function, add it as a member of the current unit, and, if it bears
    /// the entry-point name, record it as the unit's entry point — which
    /// must not already be set.
    pub fn visit_stmt_decl_func(&mut self, fdecl: &FuncDecl) -> (r: Result<(), CgError>)
        requires
            old(self).wf(),
            old(self).current_pkg is Some,
        ensures
            final(self).wf(),
            final(self).current_pkg is Some,
            decl_func_post(*old(self), *final(self), *fdecl, r),
            ({
                match m_decl_func(old(self).m(), *fdecl) {
                    Some(s1) => r == Ok::<(), CgError>(()) && final(self).m() == s1,
                    None => r is Err,
                }
            }),
        decreases fdecl, 7int,
    {
        proof {
            lemma_prefix_refl(self.objects.functions@);
            lemma_prefix_refl(self.objects.strings@);
        }
        let body = match &fdecl.body {
            Some(b) => b,
            None => {
                return Err(CgError::Unsupported(Construct::FuncDeclWithoutBody));
            },
        };
        let fkey = match self.gen_func_def(&fdecl.typ, body) {
            Ok(k) => k,
            Err(e) => {
                return Err(e);
            },
        };
        let entity = match fdecl.name.entity {
            Some(k) => k,
            None => {
                return Err(CgError::Internal(Violation::MissingEntity));
            },
        };
        let p = match self.current_pkg {
            Some(p) => p,
            None => unreached(),
        };
        let main_name: String = "main".to_owned();
        let is_main = fdecl.name.name == main_name;
        // take the package record out of the arena, mutate it, put it back
        let ghost m1 = *self;
        let ghost mpair = m_func_def(old(self).m(), fdecl.typ, fdecl.body->0)->0;
        proof {
            assert(m1.m() == mpair.0);
            assert(m1.m().pkg == m1.objects.packages@[p as int].m());
        }
        let mut tmp = PackageVal::new(String::new());
        self.objects.packages.set_and_swap(p, &mut tmp);
        proof {
            assert(tmp.m() == mpair.0.pkg);
        }
        if is_main && tmp.main_func.is_some() {
            self.objects.packages.set_and_swap(p, &mut tmp);
            proof {
                assert(self.objects.packages@ =~= m1.objects.packages@);
                assert(m_decl_func(old(self).m(), *fdecl) is None);
            }
            return Err(CgError::Internal(Violation::EntryPointReset));
        }
        match tmp.add_func(entity, fkey) {
            Ok(()) => {
                if is_main {
                    tmp.main_func = Some(fkey);
                }
                self.objects.packages.set_and_swap(p, &mut tmp);
                proof {
                    assert(self.objects.packages@ =~= m1.objects.packages@.update(
                        p as int,
                        self.objects.packages@[p as int],
                    ));
                    assert(self.m() =~~= CgB {
                        pkg: PkgB {
                            members: mpair.0.pkg.members.push(GosValue::Function(fkey)),
                            look_up: mpair.0.pkg.look_up.push(
                                (entity, mpair.0.pkg.members.len() as OpIndex),
                            ),
                            main_func: if is_main {
                                Some(fkey)
                            } else {
                                mpair.0.pkg.main_func
                            },
                            ..mpair.0.pkg
                        },
                        ..mpair.0
                    });
                }
                Ok(())
            },
            Err(e) => {
                self.objects.packages.set_and_swap(p, &mut tmp);
                proof {
                    assert(self.objects.packages@ =~= m1.objects.packages@);
                    assert(mpair.0.pkg.members.len() > MAX_OP_INDEX);
                    assert(m_decl_func(old(self).m(), *fdecl) is None);
                }
                Err(e)
            },
        }
    }

    /// Compile one top-level declaration; declaration kinds with no defined
    /// lowering abort as unsupported constructs.
    pub fn visit_decl(&mut self, decl: &Decl) -> (r: Result<(), CgError>)
        requires
            old(self).wf(),
            old(self).current_pkg is Some,
        ensures
            final(self).wf(),
            final(self).current_pkg is Some,
            final(self).current_pkg == old(self).current_pkg,
            final(self).builders@ == old(self).builders@,
            final(self).func_stack@ == old(self).func_stack@,
            final(self).packages@ == old(self).packages@,
            old(self).objects.functions@.is_prefix_of(final(self).objects.functions@),
            old(self).objects.strings@.is_prefix_of(final(self).objects.strings@),
            final(self).objects.packages@.len() == old(self).objects.packages@.len(),
            decl matches Decl::Func(fd) ==> decl_func_post(*old(self), *final(self), *fd, r),
            decl is Gen ==> r == Err::<(), CgError>(CgError::Unsupported(Construct::GenDeclStmt))
                && *final(self) == *old(self),
            ({
                match m_decl(old(self).m(), *decl) {
                    Some(s1) => r == Ok::<(), CgError>(()) && final(self).m() == s1,
                    None => r is Err,
                }
            }),
        decreases decl, 8int,
    {
        proof {
            lemma_prefix_refl(self.objects.functions@);
            lemma_prefix_refl(self.objects.strings@);
        }
        match decl {
            Decl::Func(fdecl) => {
                proof {
                    assert(*decl == Decl::Func(*fdecl));
                }
                self.visit_stmt_decl_func(fdecl)
            },
            Decl::Gen => Err(CgError::Unsupported(Construct::GenDeclStmt)),
        }
    }

    /// Compile one source file: register its compilation unit — or make the
    /// already-registered unit of that name current — then compile its
    /// top-level declarations in program order.
    pub fn gen(&mut self, f: &File) -> (r: Result<(), CgError>)
        requires
            old(self).wf(),
            old(self).builders@.len() == 0,
        ensures
            final(self).wf(),
            final(self).builders@.len() == 0,
            final(self).current_pkg is Some,
            ({
                let looked = pkgs_lookup(old(self).packages@, f.name.name@);
                &&& (looked is Some ==> final(self).current_pkg == looked && final(self).packages@
                    == old(self).packages@)
                &&& (looked is None ==> final(self).current_pkg is Some && final(self).current_pkg->0 == old(self).objects.packages@.len() && final(self).packages@
                    == old(self).packages@.push((f.name.name, final(self).current_pkg->0)))
            }),
            ({
                match m_decls(m_gen_start(*old(self), *f), f.decls@) {
                    Some(s1) => r == Ok::<(), CgError>(()) && final(self).m() == s1,
                    None => r is Err,
                }
            }),
        decreases f, 9int,
    {
        let pname: String = f.name.name.clone();
        match self.find_package(&pname) {
            Some(p) => {
                proof {
                    lemma_pkgs_lookup_some(self.packages@, pname@);
                }
                self.current_pkg = Some(p);
            },
            None => {
                let pkgval = PackageVal::new(f.name.name.clone());
                let pkey = self.objects.packages.len();
                self.objects.packages.push(pkgval);
                self.packages.push((pname, pkey));
                self.current_pkg = Some(pkey);
            },
        }
        proof {
            assert(self.m() =~~= m_gen_start(*old(self), *f));
            assert(f.decls@.skip(0) =~= f.decls@);
        }
        let n = f.decls.len();
        let mut i: usize = 0;
        while i < n
            invariant
                i <= f.decls@.len(),
                n == f.decls@.len(),
                self.wf(),
                self.builders@.len() == 0,
                self.current_pkg is Some,
                m_decls(m_gen_start(*old(self), *f), f.decls@) == m_decls(
                    self.m(),
                    f.decls@.skip(i as int),
                ),
                ({
                    let looked = pkgs_lookup(old(self).packages@, f.name.name@);
                    &&& (looked is Some ==> self.current_pkg == looked && self.packages@ == old(self).packages@)
                    &&& (looked is None ==> self.current_pkg is Some && self.current_pkg->0
                        == old(self).objects.packages@.len() && self.packages@ == old(self).packages@.push((f.name.name, self.current_pkg->0)))
                }),
            decreases n - i,
        {
            proof {
                assert(f.decls@.skip(i as int)[0] == f.decls@[i as int]);
                assert(f.decls@.skip(i as int).subrange(
                    1,
                    f.decls@.skip(i as int).len() as int,
                ) =~= f.decls@.skip(i as int + 1));
            }
            match self.visit_decl(&f.decls[i]) {
                Ok(()) => {},
                Err(e) => {
                    return Err(e);
                },
            }
            i = i + 1;
        }
        proof {
            assert(f.decls@.skip(n as int) =~= Seq::<Decl>::empty());
        }
        Ok(())
    }

    /// Seal the compilation into its immutable output: the object arenas,
    /// the unit table, and the current unit's entry-function reference.
    pub fn into_byte_code(self) -> (r: (ByteCode, Option<FunctionKey>))
        requires
            self.current_pkg is Some,
            self.current_pkg->0 < self.objects.packages@.len(),
        ensures
            r.0.objects == self.objects,
            r.0.packages == self.packages,
            r.1 == self.objects.packages@[self.current_pkg->0 as int].main_func,
    {
        let p = match self.current_pkg {
            Some(p) => p,
            None => unreached(),
        };
        let fk = self.objects.packages[p].main_func;
        (ByteCode { objects: self.objects, packages: self.packages }, fk)
    }
}


/// Law: the constant pool never deduplicates. Appending the same value twice
/// — two syntactically identical literal occurrences — yields two distinct
/// pool indices, each holding the value in a slot of its own.
pub proof fn lemma_consts_never_deduplicated(c0: Seq<GosValue>, v: GosValue)
    ensures
        ({
            let i1 = c0.len() as int;
            let c1 = c0.push(v);
            let i2 = c1.len() as int;
            let c2 = c1.push(v);
            i1 != i2 && c2[i1] == v && c2[i2] == v
        }),
{
}

/// Law: the discard identifier never appears as the target of a load —
/// resolution never hands back the discard reference, and a load of it is
/// ruled out by precondition — and a store to it emits no store instruction
/// at all, only the pop of the dropped value.
pub proof fn lemma_discard_never_loaded(s0: CodeGen, ident: Ident)
    requires
        s0.wf(),
        s0.in_func(),
    ensures
        resolve_outcome(s0, ident) matches Some(idx) ==> !(idx is Blank),
        store_cells(FnEntIndex::Blank) == seq![CodeData::Code(Opcode::POP)],
{
    if !ident.spec_is_blank() && ident.entity is Some {
        let k = ident.entity->0;
        let cur = s0.builders@.last();
        if tbl_lookup(cur.entities@, k) is Some {
            lemma_tbl_lookup_some(cur.entities@, k);
            assert(cur.entities_wf());
        }
    }
}

/// Law: a multi-target assignment stores in reverse of the targets'
/// left-to-right order: the store for the last target is emitted first,
/// before the stores for all targets preceding it.
pub proof fn lemma_stores_last_target_first(ts: Seq<FnEntIndex>, x: FnEntIndex)
    ensures
        stores_emitted(ts.push(x)) == store_cells(x) + stores_emitted(ts),
{
    assert(ts.push(x).drop_last() =~= ts);
}

/// Law: a load of a local slot in 0..=15 is one specialized opcode cell with
/// no trailing data cell, and the specialized opcode's number is the
/// slot-0 load's plus the slot index; any other slot index loads through the
/// generic opcode followed by one data cell holding the index.
pub proof fn lemma_local_load_encoding(i: OpIndex)
    ensures
        0 <= i <= MAX_INLINE_LOCAL_INDEX ==> load_cells(FnEntIndex::LocalVar(i)) == seq![
            CodeData::Code(Opcode::spec_get_load_local(i)),
        ] && Opcode::spec_get_load_local(i).num() == Opcode::LOAD_LOCAL0.num() + i,
        !(0 <= i <= MAX_INLINE_LOCAL_INDEX) ==> load_cells(FnEntIndex::LocalVar(i)) == seq![
            CodeData::Code(Opcode::LOAD_LOCAL),
            CodeData::Data(i),
        ],
{
}

/// A slot count over a take-prefix never exceeds the whole list's.
pub proof fn lemma_fields_slots_take_le(fs: Seq<Field>, m: int)
    requires
        0 <= m <= fs.len(),
    ensures
        fields_slots(fs.take(m)) <= fields_slots(fs),
    decreases fs.len(),
{
    if m == fs.len() {
        assert(fs.take(m) =~= fs);
    } else {
        assert(fs.take(m) =~= fs.drop_last().take(m));
        lemma_fields_slots_take_le(fs.drop_last(), m);
    }
}

/// While a field still has slots to register, the registered count stays
/// strictly under the whole list's.
pub proof fn lemma_fields_slots_bound(fs: Seq<Field>, i: int, j: int)
    requires
        0 <= i < fs.len(),
        0 <= j < field_slots(fs[i]),
    ensures
        fields_slots(fs.take(i)) + j + 1 <= fields_slots(fs),
{
    lemma_fields_step(fs, i, 0);
    lemma_fields_slots_take_le(fs, i + 1);
}

/// If one batch is a prefix of another, so are their extensions by a common
/// front.
pub proof fn lemma_prefix_concat_left<T>(a: Seq<T>, x: Seq<T>, y: Seq<T>)
    requires
        x.is_prefix_of(y),
    ensures
        (a + x).is_prefix_of(a + y),
{
    assert((a + x) =~= (a + y).subrange(0, (a + x).len() as int));
}

/// A take-prefix of the names registers a prefix of the entries.
pub proof fn lemma_names_entries_take_prefix(ns: Seq<Ident>, m: int, b: int)
    requires
        0 <= m <= ns.len(),
    ensures
        names_entries(ns.take(m), b).is_prefix_of(names_entries(ns, b)),
    decreases ns.len(),
{
    if m == ns.len() {
        assert(ns.take(m) =~= ns);
        lemma_prefix_refl(names_entries(ns, b));
    } else {
        assert(ns.take(m) =~= ns.drop_last().take(m));
        lemma_names_entries_take_prefix(ns.drop_last(), m, b);
        let tail_entries = (match ns.last().entity {
            Some(k) => seq![(k, FnEntIndex::LocalVar((b + ns.len() - 1) as OpIndex))],
            None => Seq::<(EntityKey, FnEntIndex)>::empty(),
        });
        lemma_prefix_extend(names_entries(ns.drop_last(), b), tail_entries);
        lemma_prefix_trans(
            names_entries(ns.take(m), b),
            names_entries(ns.drop_last(), b),
            names_entries(ns, b),
        );
    }
}

/// A take-prefix of the fields registers a prefix of the entries.
pub proof fn lemma_fields_entries_take_prefix(fs: Seq<Field>, m: int, b: int)
    requires
        0 <= m <= fs.len(),
    ensures
        fields_entries(fs.take(m), b).is_prefix_of(fields_entries(fs, b)),
    decreases fs.len(),
{
    if m == fs.len() {
        assert(fs.take(m) =~= fs);
        lemma_prefix_refl(fields_entries(fs, b));
    } else {
        assert(fs.take(m) =~= fs.drop_last().take(m));
        lemma_fields_entries_take_prefix(fs.drop_last(), m, b);
        let tail_entries = (if fs.last().names@.len() == 0 {
            Seq::<(EntityKey, FnEntIndex)>::empty()
        } else {
            names_entries(fs.last().names@, b + fields_slots(fs.drop_last()))
        });
        lemma_prefix_extend(fields_entries(fs.drop_last(), b), tail_entries);
        lemma_prefix_trans(
            fields_entries(fs.take(m), b),
            fields_entries(fs.drop_last(), b),
            fields_entries(fs, b),
        );
    }
}

/// Under a fresh batch, the identity registered next is still unbound in the
/// table as it stands mid-registration.
pub proof fn lemma_add_params_step_fresh(
    f0_entities: Seq<(EntityKey, FnEntIndex)>,
    fs: Seq<Field>,
    b: int,
    i: int,
    j: int,
    cur_entities: Seq<(EntityKey, FnEntIndex)>,
)
    requires
        entries_fresh(fields_entries(fs, b), f0_entities),
        0 <= i < fs.len(),
        0 <= j < fs[i].names@.len(),
        fs[i].names@[j].entity is Some,
        cur_entities == f0_entities + (fields_entries(fs.take(i), b) + names_entries(
            fs[i].names@.take(j),
            b + fields_slots(fs.take(i)),
        )),
    ensures
        tbl_lookup(cur_entities, fs[i].names@[j].entity->0) is None,
{
    let k = fs[i].names@[j].entity->0;
    let es_full = fields_entries(fs, b);
    let bi = b + fields_slots(fs.take(i));
    let ns = fs[i].names@;
    let es_ij = fields_entries(fs.take(i), b) + names_entries(ns.take(j), bi);
    let entry = (k, FnEntIndex::LocalVar((bi + j) as OpIndex));
    lemma_names_step(ns, j, bi);
    assert(es_ij.push(entry) =~= fields_entries(fs.take(i), b) + names_entries(
        ns.take(j + 1),
        bi,
    ));
    lemma_names_entries_take_prefix(ns, j + 1, bi);
    lemma_prefix_concat_left(
        fields_entries(fs.take(i), b),
        names_entries(ns.take(j + 1), bi),
        names_entries(ns, bi),
    );
    lemma_fields_step(fs, i, b);
    lemma_fields_entries_take_prefix(fs, i + 1, b);
    assert((fields_entries(fs.take(i), b) + names_entries(ns, bi)) =~= fields_entries(
        fs.take(i + 1),
        b,
    ));
    lemma_prefix_trans(es_ij.push(entry), fields_entries(fs.take(i + 1), b), es_full);
    let m = es_ij.len() as int;
    assert(es_ij.push(entry) =~= es_full.subrange(0, m + 1));
    assert(m + 1 <= es_full.len());
    assert(es_ij.push(entry)[m] == entry);
    assert(es_full.subrange(0, m + 1)[m] == es_full[m]);
    assert(es_full[m] == entry);
    assert(es_full[m].0 == k);
    assert(tbl_lookup(f0_entities, es_full[m].0) is None);
    assert(tbl_lookup(f0_entities, k) is None);
    assert forall|t: int| 0 <= t < m implies (#[trigger] es_ij[t]).0 != k by {
        assert(es_ij[t] == es_ij.push(entry)[t]);
        assert(es_ij[t] == es_full[t]);
        assert(es_full[t].0 != es_full[m].0);
    }
    lemma_tbl_lookup_none(es_ij, k);
    lemma_tbl_lookup_concat(f0_entities, es_ij, k);
}

/// A function builder as mathematical values.
#[verifier::ext_equal]
pub struct FnB {
    pub package: Option<PackageKey>,
    pub meta: Option<Meta>,
    pub code: Seq<CodeData>,
    pub consts: Seq<GosValue>,
    pub up_ptrs: Seq<UpValue>,
    pub param_count: nat,
    pub ret_count: nat,
    pub entities: Seq<(EntityKey, FnEntIndex)>,
    pub local_alloc: nat,
}

/// The current compilation unit as mathematical values.
#[verifier::ext_equal]
pub struct PkgB {
    pub name: Seq<char>,
    pub main_func: Option<FunctionKey>,
    pub imports: Seq<PackageKey>,
    pub members: Seq<GosValue>,
    pub look_up: Seq<(EntityKey, OpIndex)>,
}

/// What one visiting step reads and writes, as mathematical values: the
/// in-progress builders, the arenas they grow, the reserved keys, and the
/// current unit. The registered-unit name table and the other units stand
/// outside it; the visiting contracts pin those separately.
#[verifier::ext_equal]
pub struct CgB {
    pub builders: Seq<FnB>,
    pub functions: Seq<FnB>,
    pub strings: Seq<StringVal>,
    pub func_stack: Seq<FunctionKey>,
    pub cur_pkg: PackageKey,
    pub pkg: PkgB,
}

impl FunctionVal {
    /// The builder as mathematical values.
    pub open spec fn m(self) -> FnB {
        FnB {
            package: self.package,
            meta: self.meta,
            code: self.code@,
            consts: self.consts@,
            up_ptrs: self.up_ptrs@,
            param_count: self.param_count as nat,
            ret_count: self.ret_count as nat,
            entities: self.entities@,
            local_alloc: self.local_alloc as nat,
        }
    }
}

impl PackageVal {
    /// The unit as mathematical values.
    pub open spec fn m(self) -> PkgB {
        PkgB {
            name: self.name@,
            main_func: self.main_func,
            imports: self.imports@,
            members: self.members@,
            look_up: self.look_up@,
        }
    }
}

impl CodeGen {
    /// The walker state as mathematical values; meaningful while a unit is
    /// current.
    pub open spec fn m(self) -> CgB {
        CgB {
            builders: self.builders@.map_values(|b: FunctionVal| b.m()),
            functions: self.objects.functions@.map_values(|b: FunctionVal| b.m()),
            strings: self.objects.strings@,
            func_stack: self.func_stack@,
            cur_pkg: self.current_pkg->0,
            pkg: self.objects.packages@[self.current_pkg->0 as int].m(),
        }
    }
}

/// An empty builder for the given unit.
pub open spec fn m_fresh(pkg: PackageKey) -> FnB {
    FnB {
        package: Some(pkg),
        meta: None,
        code: Seq::empty(),
        consts: Seq::empty(),
        up_ptrs: Seq::empty(),
        param_count: 0,
        ret_count: 0,
        entities: Seq::empty(),
        local_alloc: 0,
    }
}

/// The active builder.
pub open spec fn m_cur(s: CgB) -> FnB {
    s.builders.last()
}

/// The state with the active builder replaced.
pub open spec fn m_set_cur(s: CgB, f: FnB) -> CgB {
    CgB { builders: s.builders.update(s.builders.len() - 1, f), ..s }
}

/// The state with cells appended to the active builder's stream.
pub open spec fn m_emit(s: CgB, cells: Seq<CodeData>) -> CgB {
    m_set_cur(s, FnB { code: m_cur(s).code + cells, ..m_cur(s) })
}

/// What allocating the next local slot does, when the identity is unbound
/// and the slot index fits a data cell.
pub open spec fn m_add_local(f: FnB, entity: Option<EntityKey>) -> Option<(FnB, FnEntIndex)> {
    let dup = entity matches Some(k) && tbl_lookup(f.entities, k) is Some;
    if dup {
        None
    } else if f.local_alloc > MAX_OP_INDEX {
        None
    } else {
        let idx = FnEntIndex::LocalVar(f.local_alloc as OpIndex);
        Some(
            (
                FnB {
                    local_alloc: f.local_alloc + 1,
                    entities: match entity {
                        Some(k) => f.entities.push((k, idx)),
                        None => f.entities,
                    },
                    ..f
                },
                idx,
            ),
        )
    }
}

/// What appending an unbound constant does, when the pool index fits.
pub open spec fn m_add_const(f: FnB, cst: GosValue) -> Option<(FnB, FnEntIndex)> {
    if f.consts.len() > MAX_OP_INDEX {
        None
    } else {
        let idx = FnEntIndex::Const(f.consts.len() as OpIndex);
        Some((FnB { consts: f.consts.push(cst), ..f }, idx))
    }
}

/// What binding a captured-variable descriptor does: reuse, or a fresh
/// descriptor when the index fits.
pub open spec fn m_try_upvalue(f: FnB, k: EntityKey, uv: UpValue) -> Option<(FnB, FnEntIndex)> {
    if tbl_lookup(f.entities, k) is Some {
        Some((f, tbl_lookup(f.entities, k)->0))
    } else if f.up_ptrs.len() > MAX_OP_INDEX {
        None
    } else {
        let idx = FnEntIndex::UpValue(f.up_ptrs.len() as OpIndex);
        Some((FnB { up_ptrs: f.up_ptrs.push(uv), entities: f.entities.push((k, idx)), ..f }, idx))
    }
}

/// What registering a field's name list does: one slot per name, bound to
/// the name's identity when it carries one.
pub open spec fn m_params_names(f: FnB, ns: Seq<Ident>) -> Option<FnB>
    decreases ns.len(),
{
    if ns.len() == 0 {
        Some(f)
    } else {
        match m_add_local(f, ns[0].entity) {
            Some(p) => m_params_names(p.0, ns.subrange(1, ns.len() as int)),
            None => None,
        }
    }
}

/// What registering a whole field list does: a field with no names still
/// consumes one anonymous slot.
pub open spec fn m_params(f: FnB, fs: Seq<Field>) -> Option<FnB>
    decreases fs.len(),
{
    if fs.len() == 0 {
        Some(f)
    } else {
        let step = if fs[0].names@.len() == 0 {
            match m_add_local(f, None) {
                Some(p) => Some(p.0),
                None => None,
            }
        } else {
            m_params_names(f, fs[0].names@)
        };
        match step {
            Some(f1) => m_params(f1, fs.subrange(1, fs.len() as int)),
            None => None,
        }
    }
}

/// The innermost enclosing builder, below the active one, that binds `k` —
/// over builder models.
pub open spec fn m_enclosing(bs: Seq<FnB>, k: EntityKey) -> Option<int>
    decreases bs.len(),
{
    if bs.len() <= 1 {
        None
    } else if tbl_lookup(bs[bs.len() - 2].entities, k) is Some {
        Some(bs.len() - 2)
    } else {
        m_enclosing(bs.drop_last(), k)
    }
}

/// The model walk agrees with the builder walk.
pub proof fn lemma_m_enclosing(bs: Seq<FunctionVal>, k: EntityKey)
    ensures
        m_enclosing(bs.map_values(|b: FunctionVal| b.m()), k) == enclosing_hit(bs, k),
    decreases bs.len(),
{
    let ms = bs.map_values(|b: FunctionVal| b.m());
    if bs.len() <= 1 {
    } else {
        assert(ms[bs.len() - 2] == bs[bs.len() - 2].m());
        assert(ms.drop_last() =~= bs.drop_last().map_values(|b: FunctionVal| b.m()));
        lemma_m_enclosing(bs.drop_last(), k);
    }
}

/// What resolving a referenced identifier does: the precedence ladder over
/// the model, registering a fresh capture where an enclosing builder is hit.
pub open spec fn m_resolve(s: CgB, ident: Ident) -> Option<(CgB, FnEntIndex)> {
    if ident.spec_is_blank() || ident.entity is None {
        None
    } else {
        let k = ident.entity->0;
        let cur = m_cur(s);
        if tbl_lookup(cur.entities, k) is Some {
            Some((s, tbl_lookup(cur.entities, k)->0))
        } else if m_enclosing(s.builders, k) is Some {
            let j = m_enclosing(s.builders, k)->0;
            let uv = UpValue::Open(
                s.func_stack[j],
                tbl_lookup(s.builders[j].entities, k)->0.spec_index() as OpIndex,
            );
            match m_try_upvalue(cur, k, uv) {
                Some(pair) => Some((m_set_cur(s, pair.0), pair.1)),
                None => None,
            }
        } else if tbl_lookup(s.pkg.look_up, k) is Some {
            Some((s, FnEntIndex::PackageMember(tbl_lookup(s.pkg.look_up, k)->0)))
        } else {
            None
        }
    }
}

/// What compiling a basic literal does: intern a string literal, append the
/// value to the pool, load it.
pub open spec fn m_basic_lit(s: CgB, t: Token) -> Option<CgB> {
    if t is Imag || t is Char {
        None
    } else {
        let v = lit_value(t, s.strings.len() as int);
        let s1 = if t is Str {
            CgB { strings: s.strings.push(StringVal { dark: false, data: t->Str_0 }), ..s }
        } else {
            s
        };
        match m_add_const(m_cur(s1), v) {
            Some(pair) => Some(m_emit(m_set_cur(s1, pair.0), load_cells(pair.1))),
            None => None,
        }
    }
}

/// What compiling one expression does.
pub open spec fn m_expr(s: CgB, e: Expr) -> Option<CgB>
    decreases e, 3int,
{
    match e {
        Expr::Ident(id) => match m_resolve(s, id) {
            Some(pair) => Some(m_emit(pair.0, load_cells(pair.1))),
            None => None,
        },
        Expr::BasicLit(bl) => m_basic_lit(s, bl.token),
        Expr::FuncLit(fl) => match m_func_def(s, fl.typ, fl.body) {
            Some(pair) => match m_add_const(m_cur(pair.0), GosValue::Function(pair.1)) {
                Some(cp) => Some(
                    m_emit(
                        m_set_cur(pair.0, cp.0),
                        load_cells(cp.1) + seq![CodeData::Code(Opcode::NEW_CLOSURE)],
                    ),
                ),
                None => None,
            },
            None => None,
        },
        Expr::Call(c) => match m_expr(s, *c.func) {
            Some(s1) => {
                let s2 = m_emit(s1, seq![CodeData::Code(Opcode::PRE_CALL)]);
                match m_exprs(s2, c.args@) {
                    Some(s3) => Some(m_emit(s3, seq![CodeData::Code(Opcode::CALL)])),
                    None => None,
                }
            },
            None => None,
        },
        Expr::Binary(b) => match m_expr(s, *b.left) {
            Some(s1) => match m_expr(s1, *b.right) {
                Some(s2) => if binary_supported(b.op) {
                    Some(m_emit(s2, binary_cells(b.op)))
                } else {
                    None
                },
                None => None,
            },
            None => None,
        },
        _ => None,
    }
}

/// What compiling an expression list, left to right, does.
pub open spec fn m_exprs(s: CgB, es: Seq<Expr>) -> Option<CgB>
    decreases es, 4int,
{
    if es.len() == 0 {
        Some(s)
    } else {
        match m_expr(s, es[0]) {
            Some(s1) => m_exprs(s1, es.subrange(1, es.len() as int)),
            None => None,
        }
    }
}

/// What resolving or declaring the assignment targets, left to right, does —
/// before any right-hand side is compiled. Only identifiers may stand as
/// targets; a discard target takes no slot.
pub open spec fn m_targets(s: CgB, lhs: Seq<Expr>, is_def: bool) -> Option<(CgB, Seq<FnEntIndex>)>
    decreases lhs.len(),
{
    if lhs.len() == 0 {
        Some((s, Seq::empty()))
    } else {
        match lhs[0] {
            Expr::Ident(id) => {
                let step = if id.spec_is_blank() {
                    Some((s, FnEntIndex::Blank))
                } else if is_def {
                    match m_add_local(m_cur(s), id.entity) {
                        Some(pair) => Some((m_set_cur(s, pair.0), pair.1)),
                        None => None,
                    }
                } else {
                    m_resolve(s, id)
                };
                match step {
                    Some(pair) => match m_targets(
                        pair.0,
                        lhs.subrange(1, lhs.len() as int),
                        is_def,
                    ) {
                        Some(rest) => Some((rest.0, seq![pair.1] + rest.1)),
                        None => None,
                    },
                    None => None,
                }
            },
            _ => None,
        }
    }
}

/// What compiling an assignment does: all targets first, then the right-hand
/// sides in source order, then the stores in reverse target order.
pub open spec fn m_assign(s: CgB, a: AssignStmt) -> Option<CgB>
    decreases a, 4int,
{
    match m_targets(s, a.lhs@, a.op is Define) {
        Some(tp) => match m_exprs(tp.0, a.rhs@) {
            Some(s2) => if stores_result(tp.1) is None {
                Some(m_emit(s2, stores_emitted(tp.1)))
            } else {
                None
            },
            None => None,
        },
        None => None,
    }
}

/// What compiling a return does: each result in order, stored into the
/// return slot at its position, then the return instruction.
pub open spec fn m_results(s: CgB, es: Seq<Expr>, base: int) -> Option<CgB>
    decreases es, 4int,
{
    if es.len() == 0 {
        Some(m_emit(s, seq![CodeData::Code(Opcode::RETURN)]))
    } else {
        match m_expr(s, es[0]) {
            Some(s1) => if base > MAX_OP_INDEX {
                None
            } else {
                m_results(
                    m_emit(s1, store_cells(FnEntIndex::LocalVar(base as OpIndex))),
                    es.subrange(1, es.len() as int),
                    base + 1,
                )
            },
            None => None,
        }
    }
}

/// What compiling one statement does.
pub open spec fn m_stmt(s: CgB, st: Stmt) -> Option<CgB>
    decreases st, 5int,
{
    match st {
        Stmt::Assign(a) => m_assign(s, a),
        Stmt::Return(rs) => m_results(s, rs.results@, 0),
        Stmt::Block(b) => m_stmts(s, b.list@),
        Stmt::Expr(e) => m_expr(s, *e),
        _ => None,
    }
}

/// What compiling a statement list, in program order, does.
pub open spec fn m_stmts(s: CgB, ss: Seq<Stmt>) -> Option<CgB>
    decreases ss, 6int,
{
    if ss.len() == 0 {
        Some(s)
    } else {
        match m_stmt(s, ss[0]) {
            Some(s1) => m_stmts(s1, ss.subrange(1, ss.len() as int)),
            None => None,
        }
    }
}

/// What compiling one function does: result slots, then parameter slots,
/// then the body with a fresh builder pushed over a reserved arena key, then
/// the safety-net return, sealed into the arena under that key.
pub open spec fn m_func_def(s: CgB, typ: FuncType, body: BlockStmt) -> Option<(CgB, FunctionKey)>
    decreases body, 7int,
{
    let f0 = m_fresh(s.cur_pkg);
    let rrc = match typ.results {
        Some(fl) => m_params(f0, fl.list@),
        None => Some(f0),
    };
    match rrc {
        None => None,
        Some(f1) => {
            let f2 = FnB { ret_count: f1.local_alloc, ..f1 };
            match m_params(f2, typ.params.list@) {
                None => None,
                Some(f3) => {
                    let f4 = FnB { param_count: (f3.local_alloc - f2.local_alloc) as nat, ..f3 };
                    let fk = s.functions.len() as usize;
                    let s1 = CgB {
                        functions: s.functions.push(m_fresh(s.cur_pkg)),
                        func_stack: s.func_stack.push(fk),
                        builders: s.builders.push(f4),
                        ..s
                    };
                    match m_stmts(s1, body.list@) {
                        None => None,
                        Some(s2) => {
                            let sealed0 = s2.builders.last();
                            let sealed = FnB {
                                code: sealed0.code + seq![CodeData::Code(Opcode::RETURN)],
                                ..sealed0
                            };
                            Some(
                                (
                                    CgB {
                                        builders: s2.builders.drop_last(),
                                        func_stack: s2.func_stack.drop_last(),
                                        functions: s2.functions.update(fk as int, sealed),
                                        ..s2
                                    },
                                    fk,
                                ),
                            )
                        },
                    }
                },
            }
        },
    }
}

/// What compiling a top-level function declaration does: the function
/// compiled and sealed, registered as a member, and recorded as the entry
/// point when it bears the entry-point name — which must still be unset.
pub open spec fn m_decl_func(s: CgB, fd: FuncDecl) -> Option<CgB>
    decreases fd, 8int,
{
    match fd.body {
        None => None,
        Some(body) => match m_func_def(s, fd.typ, body) {
            None => None,
            Some(pair) => match fd.name.entity {
                None => None,
                Some(ent) => {
                    let s1 = pair.0;
                    let is_main = fd.name.name@ == "main"@;
                    if is_main && s1.pkg.main_func is Some {
                        None
                    } else if s1.pkg.members.len() > MAX_OP_INDEX {
                        None
                    } else {
                        Some(
                            CgB {
                                pkg: PkgB {
                                    members: s1.pkg.members.push(GosValue::Function(pair.1)),
                                    look_up: s1.pkg.look_up.push(
                                        (ent, s1.pkg.members.len() as OpIndex),
                                    ),
                                    main_func: if is_main {
                                        Some(pair.1)
                                    } else {
                                        s1.pkg.main_func
                                    },
                                    ..s1.pkg
                                },
                                ..s1
                            },
                        )
                    }
                },
            },
        },
    }
}

/// What compiling one top-level declaration does.
pub open spec fn m_decl(s: CgB, d: Decl) -> Option<CgB>
    decreases d, 9int,
{
    match d {
        Decl::Func(fd) => m_decl_func(s, fd),
        Decl::Gen => None,
    }
}

/// What compiling the declarations of a file, in program order, does.
pub open spec fn m_decls(s: CgB, ds: Seq<Decl>) -> Option<CgB>
    decreases ds, 10int,
{
    if ds.len() == 0 {
        Some(s)
    } else {
        match m_decl(s, ds[0]) {
            Some(s1) => m_decls(s1, ds.subrange(1, ds.len() as int)),
            None => None,
        }
    }
}

/// The walker state right after a file's compilation unit is registered (or
/// made current again), from which its declarations compile.
pub open spec fn m_gen_start(s: CodeGen, f: File) -> CgB {
    let builders = s.builders@.map_values(|b: FunctionVal| b.m());
    let functions = s.objects.functions@.map_values(|b: FunctionVal| b.m());
    match pkgs_lookup(s.packages@, f.name.name@) {
        Some(p) => CgB {
            builders,
            functions,
            strings: s.objects.strings@,
            func_stack: s.func_stack@,
            cur_pkg: p,
            pkg: s.objects.packages@[p as int].m(),
        },
        None => CgB {
            builders,
            functions,
            strings: s.objects.strings@,
            func_stack: s.func_stack@,
            cur_pkg: s.objects.packages@.len() as usize,
            pkg: PkgB {
                name: f.name.name@,
                main_func: None,
                imports: Seq::empty(),
                members: Seq::empty(),
                look_up: Seq::empty(),
            },
        },
    }
}

/// Replacing only the active builder replaces only the active slot of the
/// model's builder stack.
pub proof fn lemma_m_set_cur(pre: CodeGen, post: CodeGen)
    requires
        pre.builders@.len() >= 1,
        post.builders@.len() == pre.builders@.len(),
        forall|i: int| 0 <= i < pre.builders@.len() - 1 ==> post.builders@[i] == pre.builders@[i],
        post.func_stack@ == pre.func_stack@,
        post.current_pkg == pre.current_pkg,
        post.objects.functions@ == pre.objects.functions@,
        post.objects.strings@ == pre.objects.strings@,
        post.objects.packages@ == pre.objects.packages@,
    ensures
        post.m() == m_set_cur(pre.m(), post.builders@.last().m()),
{
    assert(post.m() =~~= m_set_cur(pre.m(), post.builders@.last().m()));
}
} // verus!
