//! The instruction-set vocabulary of the compiler's output: opcodes, their
//! mnemonics, their numeric encoding values and their stack effect, and the
//! interleaved opcode/data cells of the instruction stream.

use vstd::prelude::*;

verus! {

/// Largest local-slot index that has a specialized one-cell load opcode.
pub const MAX_INLINE_LOCAL_INDEX: OpIndex = 15;

/// Largest call-argument index with a specialized encoding.
pub const MAX_INLINE_ARG_INDEX: OpIndex = 15;

/// Operand and index type of the instruction stream.
pub type OpIndex = i16;

#[allow(non_camel_case_types)]
#[derive(Clone, Copy, Debug, PartialEq, Eq, Structural)]
pub enum Opcode {
    PUSH_CONST,
    PUSH_NIL,
    PUSH_FALSE,
    PUSH_TRUE,
    PUSH_IMM,
    POP,
    LOAD_LOCAL0,
    LOAD_LOCAL1,
    LOAD_LOCAL2,
    LOAD_LOCAL3,
    LOAD_LOCAL4,
    LOAD_LOCAL5,
    LOAD_LOCAL6,
    LOAD_LOCAL7,
    LOAD_LOCAL8,
    LOAD_LOCAL9,
    LOAD_LOCAL10,
    LOAD_LOCAL11,
    LOAD_LOCAL12,
    LOAD_LOCAL13,
    LOAD_LOCAL14,
    LOAD_LOCAL15,
    LOAD_LOCAL,
    STORE_LOCAL,
    STORE_LOCAL_NT,
    LOAD_UPVALUE,
    STORE_UPVALUE,
    STORE_UPVALUE_NT,
    LOAD_FIELD,
    STORE_FIELD,
    STORE_FIELD_NT,
    LOAD_FIELD_IMM,
    STORE_FIELD_IMM,
    STORE_FIELD_IMM_NT,
    LOAD_THIS_PKG_FIELD,
    STORE_THIS_PKG_FIELD,
    STORE_THIS_PKG_FIELD_NT,
    STORE_DEREF,
    STORE_DEREF_NT,
    LOAD_GLOBAL,
    IMPORT,
    LOAD_PKG_VAR,
    ADD,
    SUB,
    REF,
    DEREF,
    PRE_CALL,
    CALL,
    CALL_PRIMI_2_1,
    CLOSE_UPVALUE,
    RETURN,
    RETURN_INIT_PKG,
    JUMP,
    LOOP,
    JUMP_IF,
    AND,
    OR,
    NEW_CLOSURE,
    NEW_STRUCT,
    NEW_SLICE,
    NEW_MAP,
}

impl Opcode {
    /// Numeric value of the opcode in the binary encoding; the encoding is
    /// part of the contract between the compiler and the execution engine.
    pub open spec fn num(self) -> int {
        match self {
            Opcode::PUSH_CONST => 100,
            Opcode::PUSH_NIL => 101,
            Opcode::PUSH_FALSE => 102,
            Opcode::PUSH_TRUE => 103,
            Opcode::PUSH_IMM => 104,
            Opcode::POP => 110,
            Opcode::LOAD_LOCAL0 => 200,
            Opcode::LOAD_LOCAL1 => 201,
            Opcode::LOAD_LOCAL2 => 202,
            Opcode::LOAD_LOCAL3 => 203,
            Opcode::LOAD_LOCAL4 => 204,
            Opcode::LOAD_LOCAL5 => 205,
            Opcode::LOAD_LOCAL6 => 206,
            Opcode::LOAD_LOCAL7 => 207,
            Opcode::LOAD_LOCAL8 => 208,
            Opcode::LOAD_LOCAL9 => 209,
            Opcode::LOAD_LOCAL10 => 210,
            Opcode::LOAD_LOCAL11 => 211,
            Opcode::LOAD_LOCAL12 => 212,
            Opcode::LOAD_LOCAL13 => 213,
            Opcode::LOAD_LOCAL14 => 214,
            Opcode::LOAD_LOCAL15 => 215,
            Opcode::LOAD_LOCAL => 220,
            Opcode::STORE_LOCAL => 221,
            Opcode::STORE_LOCAL_NT => 222,
            Opcode::LOAD_UPVALUE => 230,
            Opcode::STORE_UPVALUE => 231,
            Opcode::STORE_UPVALUE_NT => 232,
            Opcode::LOAD_FIELD => 240,
            Opcode::STORE_FIELD => 241,
            Opcode::STORE_FIELD_NT => 242,
            Opcode::LOAD_FIELD_IMM => 250,
            Opcode::STORE_FIELD_IMM => 251,
            Opcode::STORE_FIELD_IMM_NT => 252,
            Opcode::LOAD_THIS_PKG_FIELD => 253,
            Opcode::STORE_THIS_PKG_FIELD => 254,
            Opcode::STORE_THIS_PKG_FIELD_NT => 255,
            Opcode::STORE_DEREF => 256,
            Opcode::STORE_DEREF_NT => 257,
            Opcode::LOAD_GLOBAL => 260,
            Opcode::IMPORT => 261,
            Opcode::LOAD_PKG_VAR => 262,
            Opcode::ADD => 300,
            Opcode::SUB => 301,
            Opcode::REF => 302,
            Opcode::DEREF => 303,
            Opcode::PRE_CALL => 400,
            Opcode::CALL => 401,
            Opcode::CALL_PRIMI_2_1 => 402,
            Opcode::CLOSE_UPVALUE => 403,
            Opcode::RETURN => 404,
            Opcode::RETURN_INIT_PKG => 405,
            Opcode::JUMP => 500,
            Opcode::LOOP => 501,
            Opcode::JUMP_IF => 502,
            Opcode::AND => 503,
            Opcode::OR => 504,
            Opcode::NEW_CLOSURE => 600,
            Opcode::NEW_STRUCT => 601,
            Opcode::NEW_SLICE => 602,
            Opcode::NEW_MAP => 603,
        }
    }

    /// Mnemonic of the opcode.
    pub open spec fn name(self) -> Seq<char> {
        match self {
            Opcode::PUSH_CONST => "PUSH_CONST"@,
            Opcode::PUSH_NIL => "PUSH_NIL"@,
            Opcode::PUSH_FALSE => "PUSH_FALSE"@,
            Opcode::PUSH_TRUE => "PUSH_TRUE"@,
            Opcode::PUSH_IMM => "PUSH_IMM"@,
            Opcode::POP => "POP"@,
            Opcode::LOAD_LOCAL0 => "LOAD_LOCAL0"@,
            Opcode::LOAD_LOCAL1 => "LOAD_LOCAL1"@,
            Opcode::LOAD_LOCAL2 => "LOAD_LOCAL2"@,
            Opcode::LOAD_LOCAL3 => "LOAD_LOCAL3"@,
            Opcode::LOAD_LOCAL4 => "LOAD_LOCAL4"@,
            Opcode::LOAD_LOCAL5 => "LOAD_LOCAL5"@,
            Opcode::LOAD_LOCAL6 => "LOAD_LOCAL6"@,
            Opcode::LOAD_LOCAL7 => "LOAD_LOCAL7"@,
            Opcode::LOAD_LOCAL8 => "LOAD_LOCAL8"@,
            Opcode::LOAD_LOCAL9 => "LOAD_LOCAL9"@,
            Opcode::LOAD_LOCAL10 => "LOAD_LOCAL10"@,
            Opcode::LOAD_LOCAL11 => "LOAD_LOCAL11"@,
            Opcode::LOAD_LOCAL12 => "LOAD_LOCAL12"@,
            Opcode::LOAD_LOCAL13 => "LOAD_LOCAL13"@,
            Opcode::LOAD_LOCAL14 => "LOAD_LOCAL14"@,
            Opcode::LOAD_LOCAL15 => "LOAD_LOCAL15"@,
            Opcode::LOAD_LOCAL => "LOAD_LOCAL"@,
            Opcode::STORE_LOCAL => "STORE_LOCAL"@,
            Opcode::STORE_LOCAL_NT => "STORE_LOCAL_NT"@,
            Opcode::LOAD_UPVALUE => "LOAD_LOCAL"@,
            Opcode::STORE_UPVALUE => "STORE_UPVALUE"@,
            Opcode::STORE_UPVALUE_NT => "STORE_UPVALUE_NT"@,
            Opcode::LOAD_FIELD => "LOAD_FIELD"@,
            Opcode::STORE_FIELD => "STORE_FIELD"@,
            Opcode::STORE_FIELD_NT => "STORE_FIELD_NT"@,
            Opcode::LOAD_FIELD_IMM => "LOAD_FIELD_IMM"@,
            Opcode::STORE_FIELD_IMM => "STORE_FIELD_IMM"@,
            Opcode::STORE_FIELD_IMM_NT => "STORE_FIELD_IMM_NT"@,
            Opcode::LOAD_THIS_PKG_FIELD => "LOAD_THIS_PKG_FIELD"@,
            Opcode::STORE_THIS_PKG_FIELD => "STORE_THIS_PKG_FIELD"@,
            Opcode::STORE_THIS_PKG_FIELD_NT => "STORE_THIS_PKG_FIELD_NT"@,
            Opcode::STORE_DEREF => "STORE_DEREF"@,
            Opcode::STORE_DEREF_NT => "STORE_DEREF_NT"@,
            Opcode::LOAD_GLOBAL => "LOAD_GLOBAL"@,
            Opcode::IMPORT => "IMPORT"@,
            Opcode::LOAD_PKG_VAR => "LOAD_PKG_VAR"@,
            Opcode::ADD => "ADD"@,
            Opcode::SUB => "SUB"@,
            Opcode::REF => "REF"@,
            Opcode::DEREF => "DEREF"@,
            Opcode::PRE_CALL => "PRE_CALL"@,
            Opcode::CALL => "CALL"@,
            Opcode::CALL_PRIMI_2_1 => "CALL_PRIMI_2_1"@,
            Opcode::CLOSE_UPVALUE => "CLOSE_UPVALUE"@,
            Opcode::RETURN => "RETURN"@,
            Opcode::RETURN_INIT_PKG => "RETURN_INIT_PKG"@,
            Opcode::JUMP => "JUMP"@,
            Opcode::LOOP => "LOOP"@,
            Opcode::JUMP_IF => "JUMP_IF"@,
            Opcode::AND => "AND"@,
            Opcode::OR => "OR"@,
            Opcode::NEW_CLOSURE => "NEW_CLOSURE"@,
            Opcode::NEW_STRUCT => "NEW_STRUCT"@,
            Opcode::NEW_SLICE => "NEW_SLICE"@,
            Opcode::NEW_MAP => "NEW_MAP"@,
        }
    }

    /// Net effect of the opcode on the evaluation-stack depth;
    /// -128 marks the opcodes whose effect varies with the call.
    pub open spec fn stack_delta(self) -> int {
        match self {
            Opcode::PUSH_CONST => 1,
            Opcode::PUSH_NIL => 1,
            Opcode::PUSH_FALSE => 1,
            Opcode::PUSH_TRUE => 1,
            Opcode::PUSH_IMM => 1,
            Opcode::POP => -1,
            Opcode::LOAD_LOCAL0 => 1,
            Opcode::LOAD_LOCAL1 => 1,
            Opcode::LOAD_LOCAL2 => 1,
            Opcode::LOAD_LOCAL3 => 1,
            Opcode::LOAD_LOCAL4 => 1,
            Opcode::LOAD_LOCAL5 => 1,
            Opcode::LOAD_LOCAL6 => 1,
            Opcode::LOAD_LOCAL7 => 1,
            Opcode::LOAD_LOCAL8 => 1,
            Opcode::LOAD_LOCAL9 => 1,
            Opcode::LOAD_LOCAL10 => 1,
            Opcode::LOAD_LOCAL11 => 1,
            Opcode::LOAD_LOCAL12 => 1,
            Opcode::LOAD_LOCAL13 => 1,
            Opcode::LOAD_LOCAL14 => 1,
            Opcode::LOAD_LOCAL15 => 1,
            Opcode::LOAD_LOCAL => 1,
            Opcode::STORE_LOCAL => 0,
            Opcode::STORE_LOCAL_NT => 0,
            Opcode::LOAD_UPVALUE => 1,
            Opcode::STORE_UPVALUE => 0,
            Opcode::STORE_UPVALUE_NT => 0,
            Opcode::LOAD_FIELD => -1,
            Opcode::STORE_FIELD => 0,
            Opcode::STORE_FIELD_NT => 0,
            Opcode::LOAD_FIELD_IMM => 0,
            Opcode::STORE_FIELD_IMM => 0,
            Opcode::STORE_FIELD_IMM_NT => 0,
            Opcode::LOAD_THIS_PKG_FIELD => -1,
            Opcode::STORE_THIS_PKG_FIELD => 0,
            Opcode::STORE_THIS_PKG_FIELD_NT => 0,
            Opcode::STORE_DEREF => 0,
            Opcode::STORE_DEREF_NT => 0,
            Opcode::LOAD_GLOBAL => 0,
            Opcode::IMPORT => 0,
            Opcode::LOAD_PKG_VAR => 1,
            Opcode::ADD => -1,
            Opcode::SUB => -1,
            Opcode::REF => 0,
            Opcode::DEREF => 0,
            Opcode::PRE_CALL => -128,
            Opcode::CALL => -128,
            Opcode::CALL_PRIMI_2_1 => -1,
            Opcode::CLOSE_UPVALUE => -1,
            Opcode::RETURN => -128,
            Opcode::RETURN_INIT_PKG => -128,
            Opcode::JUMP => 0,
            Opcode::LOOP => 0,
            Opcode::JUMP_IF => -1,
            Opcode::AND => -1,
            Opcode::OR => -1,
            Opcode::NEW_CLOSURE => 1,
            Opcode::NEW_STRUCT => 0,
            Opcode::NEW_SLICE => 0,
            Opcode::NEW_MAP => 0,
        }
    }

    /// The load opcode that a local load with slot index `i` dispatches to:
    /// one specialized opcode per slot in 0..=15, the generic one otherwise.
    pub open spec fn spec_get_load_local(i: OpIndex) -> Opcode {
        if i == 0 {
            Opcode::LOAD_LOCAL0
        } else if i == 1 {
            Opcode::LOAD_LOCAL1
        } else if i == 2 {
            Opcode::LOAD_LOCAL2
        } else if i == 3 {
            Opcode::LOAD_LOCAL3
        } else if i == 4 {
            Opcode::LOAD_LOCAL4
        } else if i == 5 {
            Opcode::LOAD_LOCAL5
        } else if i == 6 {
            Opcode::LOAD_LOCAL6
        } else if i == 7 {
            Opcode::LOAD_LOCAL7
        } else if i == 8 {
            Opcode::LOAD_LOCAL8
        } else if i == 9 {
            Opcode::LOAD_LOCAL9
        } else if i == 10 {
            Opcode::LOAD_LOCAL10
        } else if i == 11 {
            Opcode::LOAD_LOCAL11
        } else if i == 12 {
            Opcode::LOAD_LOCAL12
        } else if i == 13 {
            Opcode::LOAD_LOCAL13
        } else if i == 14 {
            Opcode::LOAD_LOCAL14
        } else if i == 15 {
            Opcode::LOAD_LOCAL15
        } else {
            Opcode::LOAD_LOCAL
        }
    }

    pub fn get_load_local(i: OpIndex) -> (r: Opcode)
        ensures
            r == Opcode::spec_get_load_local(i),
            0 <= i <= MAX_INLINE_LOCAL_INDEX ==> r.num() == 200 + i,
            !(0 <= i <= MAX_INLINE_LOCAL_INDEX) ==> r == Opcode::LOAD_LOCAL,
    {
        match i {
            0 => Opcode::LOAD_LOCAL0,
            1 => Opcode::LOAD_LOCAL1,
            2 => Opcode::LOAD_LOCAL2,
            3 => Opcode::LOAD_LOCAL3,
            4 => Opcode::LOAD_LOCAL4,
            5 => Opcode::LOAD_LOCAL5,
            6 => Opcode::LOAD_LOCAL6,
            7 => Opcode::LOAD_LOCAL7,
            8 => Opcode::LOAD_LOCAL8,
            9 => Opcode::LOAD_LOCAL9,
            10 => Opcode::LOAD_LOCAL10,
            11 => Opcode::LOAD_LOCAL11,
            12 => Opcode::LOAD_LOCAL12,
            13 => Opcode::LOAD_LOCAL13,
            14 => Opcode::LOAD_LOCAL14,
            15 => Opcode::LOAD_LOCAL15,
            _ => Opcode::LOAD_LOCAL,
        }
    }

    /// The opcode's numeric encoding value.
    pub fn value(&self) -> (r: OpIndex)
        ensures
            r == self.num(),
            100 <= r <= 620,
    {
        match self {
            Opcode::PUSH_CONST => 100,
            Opcode::PUSH_NIL => 101,
            Opcode::PUSH_FALSE => 102,
            Opcode::PUSH_TRUE => 103,
            Opcode::PUSH_IMM => 104,
            Opcode::POP => 110,
            Opcode::LOAD_LOCAL0 => 200,
            Opcode::LOAD_LOCAL1 => 201,
            Opcode::LOAD_LOCAL2 => 202,
            Opcode::LOAD_LOCAL3 => 203,
            Opcode::LOAD_LOCAL4 => 204,
            Opcode::LOAD_LOCAL5 => 205,
            Opcode::LOAD_LOCAL6 => 206,
            Opcode::LOAD_LOCAL7 => 207,
            Opcode::LOAD_LOCAL8 => 208,
            Opcode::LOAD_LOCAL9 => 209,
            Opcode::LOAD_LOCAL10 => 210,
            Opcode::LOAD_LOCAL11 => 211,
            Opcode::LOAD_LOCAL12 => 212,
            Opcode::LOAD_LOCAL13 => 213,
            Opcode::LOAD_LOCAL14 => 214,
            Opcode::LOAD_LOCAL15 => 215,
            Opcode::LOAD_LOCAL => 220,
            Opcode::STORE_LOCAL => 221,
            Opcode::STORE_LOCAL_NT => 222,
            Opcode::LOAD_UPVALUE => 230,
            Opcode::STORE_UPVALUE => 231,
            Opcode::STORE_UPVALUE_NT => 232,
            Opcode::LOAD_FIELD => 240,
            Opcode::STORE_FIELD => 241,
            Opcode::STORE_FIELD_NT => 242,
            Opcode::LOAD_FIELD_IMM => 250,
            Opcode::STORE_FIELD_IMM => 251,
            Opcode::STORE_FIELD_IMM_NT => 252,
            Opcode::LOAD_THIS_PKG_FIELD => 253,
            Opcode::STORE_THIS_PKG_FIELD => 254,
            Opcode::STORE_THIS_PKG_FIELD_NT => 255,
            Opcode::STORE_DEREF => 256,
            Opcode::STORE_DEREF_NT => 257,
            Opcode::LOAD_GLOBAL => 260,
            Opcode::IMPORT => 261,
            Opcode::LOAD_PKG_VAR => 262,
            Opcode::ADD => 300,
            Opcode::SUB => 301,
            Opcode::REF => 302,
            Opcode::DEREF => 303,
            Opcode::PRE_CALL => 400,
            Opcode::CALL => 401,
            Opcode::CALL_PRIMI_2_1 => 402,
            Opcode::CLOSE_UPVALUE => 403,
            Opcode::RETURN => 404,
            Opcode::RETURN_INIT_PKG => 405,
            Opcode::JUMP => 500,
            Opcode::LOOP => 501,
            Opcode::JUMP_IF => 502,
            Opcode::AND => 503,
            Opcode::OR => 504,
            Opcode::NEW_CLOSURE => 600,
            Opcode::NEW_STRUCT => 601,
            Opcode::NEW_SLICE => 602,
            Opcode::NEW_MAP => 603,
        }
    }

    /// Position of a specialized local-load opcode within its family, counted
    /// from the slot-0 load; for slot loads this is the slot index itself.
    pub fn load_local_index(&self) -> (r: OpIndex)
        ensures
            r == self.num() - Opcode::LOAD_LOCAL0.num(),
    {
        self.value() - Opcode::LOAD_LOCAL0.value()
    }

    /// Mnemonic and stack effect of the opcode.
    pub fn property(&self) -> (r: (&'static str, i8))
        ensures
            r.0@ == self.name(),
            r.1 as int == self.stack_delta(),
    {
        match self {
            Opcode::PUSH_CONST => ("PUSH_CONST", 1),
            Opcode::PUSH_NIL => ("PUSH_NIL", 1),
            Opcode::PUSH_FALSE => ("PUSH_FALSE", 1),
            Opcode::PUSH_TRUE => ("PUSH_TRUE", 1),
            Opcode::PUSH_IMM => ("PUSH_IMM", 1),
            Opcode::POP => ("POP", -1),
            Opcode::LOAD_LOCAL0 => ("LOAD_LOCAL0", 1),
            Opcode::LOAD_LOCAL1 => ("LOAD_LOCAL1", 1),
            Opcode::LOAD_LOCAL2 => ("LOAD_LOCAL2", 1),
            Opcode::LOAD_LOCAL3 => ("LOAD_LOCAL3", 1),
            Opcode::LOAD_LOCAL4 => ("LOAD_LOCAL4", 1),
            Opcode::LOAD_LOCAL5 => ("LOAD_LOCAL5", 1),
            Opcode::LOAD_LOCAL6 => ("LOAD_LOCAL6", 1),
            Opcode::LOAD_LOCAL7 => ("LOAD_LOCAL7", 1),
            Opcode::LOAD_LOCAL8 => ("LOAD_LOCAL8", 1),
            Opcode::LOAD_LOCAL9 => ("LOAD_LOCAL9", 1),
            Opcode::LOAD_LOCAL10 => ("LOAD_LOCAL10", 1),
            Opcode::LOAD_LOCAL11 => ("LOAD_LOCAL11", 1),
            Opcode::LOAD_LOCAL12 => ("LOAD_LOCAL12", 1),
            Opcode::LOAD_LOCAL13 => ("LOAD_LOCAL13", 1),
            Opcode::LOAD_LOCAL14 => ("LOAD_LOCAL14", 1),
            Opcode::LOAD_LOCAL15 => ("LOAD_LOCAL15", 1),
            Opcode::LOAD_LOCAL => ("LOAD_LOCAL", 1),
            Opcode::STORE_LOCAL => ("STORE_LOCAL", 0),
            Opcode::STORE_LOCAL_NT => ("STORE_LOCAL_NT", 0),
            Opcode::LOAD_UPVALUE => ("LOAD_LOCAL", 1),
            Opcode::STORE_UPVALUE => ("STORE_UPVALUE", 0),
            Opcode::STORE_UPVALUE_NT => ("STORE_UPVALUE_NT", 0),
            Opcode::LOAD_FIELD => ("LOAD_FIELD", -1),
            Opcode::STORE_FIELD => ("STORE_FIELD", 0),
            Opcode::STORE_FIELD_NT => ("STORE_FIELD_NT", 0),
            Opcode::LOAD_FIELD_IMM => ("LOAD_FIELD_IMM", 0),
            Opcode::STORE_FIELD_IMM => ("STORE_FIELD_IMM", 0),
            Opcode::STORE_FIELD_IMM_NT => ("STORE_FIELD_IMM_NT", 0),
            Opcode::LOAD_THIS_PKG_FIELD => ("LOAD_THIS_PKG_FIELD", -1),
            Opcode::STORE_THIS_PKG_FIELD => ("STORE_THIS_PKG_FIELD", 0),
            Opcode::STORE_THIS_PKG_FIELD_NT => ("STORE_THIS_PKG_FIELD_NT", 0),
            Opcode::STORE_DEREF => ("STORE_DEREF", 0),
            Opcode::STORE_DEREF_NT => ("STORE_DEREF_NT", 0),
            Opcode::LOAD_GLOBAL => ("LOAD_GLOBAL", 0),
            Opcode::IMPORT => ("IMPORT", 0),
            Opcode::LOAD_PKG_VAR => ("LOAD_PKG_VAR", 1),
            Opcode::ADD => ("ADD", -1),
            Opcode::SUB => ("SUB", -1),
            Opcode::REF => ("REF", 0),
            Opcode::DEREF => ("DEREF", 0),
            Opcode::PRE_CALL => ("PRE_CALL", -128),
            Opcode::CALL => ("CALL", -128),
            Opcode::CALL_PRIMI_2_1 => ("CALL_PRIMI_2_1", -1),
            Opcode::CLOSE_UPVALUE => ("CLOSE_UPVALUE", -1),
            Opcode::RETURN => ("RETURN", -128),
            Opcode::RETURN_INIT_PKG => ("RETURN_INIT_PKG", -128),
            Opcode::JUMP => ("JUMP", 0),
            Opcode::LOOP => ("LOOP", 0),
            Opcode::JUMP_IF => ("JUMP_IF", -1),
            Opcode::AND => ("AND", -1),
            Opcode::OR => ("OR", -1),
            Opcode::NEW_CLOSURE => ("NEW_CLOSURE", 1),
            Opcode::NEW_STRUCT => ("NEW_STRUCT", 0),
            Opcode::NEW_SLICE => ("NEW_SLICE", 0),
            Opcode::NEW_MAP => ("NEW_MAP", 0),
        }
    }

    /// Mnemonic of the opcode.
    pub fn text(&self) -> (r: &str)
        ensures
            r@ == self.name(),
    {
        let (t, _) = self.property();
        t
    }
}

/// One cell of the instruction stream: an opcode cell or the data cell that
/// immediately follows the opcode it belongs to.
#[derive(Clone, Copy, Debug, PartialEq, Eq, Structural)]
pub enum CodeData {
    Code(Opcode),
    Data(OpIndex),
}

impl CodeData {
    /// The opcode held by an opcode cell.
    pub fn unwrap_code(&self) -> (r: &Opcode)
        requires
            self is Code,
        ensures
            self matches CodeData::Code(c) && *r == c,
    {
        match self {
            CodeData::Code(code) => code,
            CodeData::Data(_) => unreached(),
        }
    }

    /// The operand held by a data cell.
    pub fn unwrap_data(&self) -> (r: &OpIndex)
        requires
            self is Data,
        ensures
            self matches CodeData::Data(d) && *r == d,
    {
        match self {
            CodeData::Code(_) => unreached(),
            CodeData::Data(data) => data,
        }
    }
}

} // verus!
