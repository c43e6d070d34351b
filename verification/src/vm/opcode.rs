//! The execution engine's instruction-set vocabulary: a superset of the
//! compiler's, with the comparison, jump and built-in operations the engine
//! interprets. The numeric encoding values are part of the binary contract
//! between compiler and engine.

use vstd::prelude::*;

verus! {

/// Operand and index type of the instruction stream.
pub type OpIndex = i16;

pub const OP_ADD_VALUE: isize = 300;

pub const OP_SUB_VALUE: isize = 301;

pub const OP_MUL_VALUE: isize = 302;

pub const OP_QUO_VALUE: isize = 303;

pub const OP_REM_VALUE: isize = 304;

pub const OP_AND_VALUE: isize = 305;

pub const OP_OR_VALUE: isize = 306;

pub const OP_XOR_VALUE: isize = 307;

pub const OP_SHL_VALUE: isize = 308;

pub const OP_SHR_VALUE: isize = 309;

pub const OP_AND_NOT_VALUE: isize = 310;

#[allow(non_camel_case_types)]
#[derive(Clone, Copy, Debug, PartialEq, Eq, Hash, Structural)]
pub enum Opcode {
    PUSH_CONST,
    PUSH_NIL,
    PUSH_FALSE,
    PUSH_TRUE,
    PUSH_IMM,
    POP,
    LOAD_LOCAL0,
    LOAD_LOCAL1,
    LOAD_LOCAL2,
    LOAD_LOCAL3,
    LOAD_LOCAL4,
    LOAD_LOCAL5,
    LOAD_LOCAL6,
    LOAD_LOCAL7,
    LOAD_LOCAL8,
    LOAD_LOCAL9,
    LOAD_LOCAL10,
    LOAD_LOCAL11,
    LOAD_LOCAL12,
    LOAD_LOCAL13,
    LOAD_LOCAL14,
    LOAD_LOCAL15,
    LOAD_LOCAL,
    STORE_LOCAL,
    STORE_LOCAL_NT,
    STORE_LOCAL_OP,
    LOAD_UPVALUE,
    STORE_UPVALUE,
    STORE_UPVALUE_NT,
    STORE_UPVALUE_OP,
    LOAD_FIELD,
    STORE_FIELD,
    STORE_FIELD_NT,
    STORE_FIELD_OP,
    LOAD_FIELD_IMM,
    STORE_FIELD_IMM,
    STORE_FIELD_IMM_NT,
    STORE_FIELD_IMM_OP,
    LOAD_THIS_PKG_FIELD,
    STORE_THIS_PKG_FIELD,
    STORE_THIS_PKG_FIELD_NT,
    STORE_THIS_PKG_FIELD_OP,
    STORE_DEREF,
    STORE_DEREF_NT,
    STORE_DEREF_OP,
    ADD,
    SUB,
    MUL,
    QUO,
    REM,
    AND,
    OR,
    XOR,
    SHL,
    SHR,
    AND_NOT,
    UNARY_ADD,
    UNARY_SUB,
    UNARY_XOR,
    REF,
    DEREF,
    ARROW,
    NOT,
    EQL,
    LSS,
    GTR,
    NEQ,
    LEQ,
    GEQ,
    PRE_CALL,
    CALL,
    CALL_ELLIPSIS,
    CLOSE_UPVALUE,
    RETURN,
    RETURN_INIT_PKG,
    JUMP,
    JUMP_IF,
    JUMP_IF_NOT,
    LOOP,
    RANGE,
    IMPORT,
    SLICE,
    SLICE_FULL,
    NEW,
    MAKE,
    LEN,
    CAP,
    APPEND,
    ASSERT,
}

impl Opcode {
    /// Numeric value of the opcode in the binary encoding.
    pub open spec fn num(self) -> int {
        match self {
            Opcode::PUSH_CONST => 100,
            Opcode::PUSH_NIL => 101,
            Opcode::PUSH_FALSE => 102,
            Opcode::PUSH_TRUE => 103,
            Opcode::PUSH_IMM => 104,
            Opcode::POP => 110,
            Opcode::LOAD_LOCAL0 => 200,
            Opcode::LOAD_LOCAL1 => 201,
            Opcode::LOAD_LOCAL2 => 202,
            Opcode::LOAD_LOCAL3 => 203,
            Opcode::LOAD_LOCAL4 => 204,
            Opcode::LOAD_LOCAL5 => 205,
            Opcode::LOAD_LOCAL6 => 206,
            Opcode::LOAD_LOCAL7 => 207,
            Opcode::LOAD_LOCAL8 => 208,
            Opcode::LOAD_LOCAL9 => 209,
            Opcode::LOAD_LOCAL10 => 210,
            Opcode::LOAD_LOCAL11 => 211,
            Opcode::LOAD_LOCAL12 => 212,
            Opcode::LOAD_LOCAL13 => 213,
            Opcode::LOAD_LOCAL14 => 214,
            Opcode::LOAD_LOCAL15 => 215,
            Opcode::LOAD_LOCAL => 220,
            Opcode::STORE_LOCAL => 221,
            Opcode::STORE_LOCAL_NT => 222,
            Opcode::STORE_LOCAL_OP => 223,
            Opcode::LOAD_UPVALUE => 230,
            Opcode::STORE_UPVALUE => 231,
            Opcode::STORE_UPVALUE_NT => 232,
            Opcode::STORE_UPVALUE_OP => 233,
            Opcode::LOAD_FIELD => 240,
            Opcode::STORE_FIELD => 241,
            Opcode::STORE_FIELD_NT => 242,
            Opcode::STORE_FIELD_OP => 243,
            Opcode::LOAD_FIELD_IMM => 250,
            Opcode::STORE_FIELD_IMM => 251,
            Opcode::STORE_FIELD_IMM_NT => 252,
            Opcode::STORE_FIELD_IMM_OP => 253,
            Opcode::LOAD_THIS_PKG_FIELD => 260,
            Opcode::STORE_THIS_PKG_FIELD => 261,
            Opcode::STORE_THIS_PKG_FIELD_NT => 262,
            Opcode::STORE_THIS_PKG_FIELD_OP => 263,
            Opcode::STORE_DEREF => 270,
            Opcode::STORE_DEREF_NT => 271,
            Opcode::STORE_DEREF_OP => 272,
            Opcode::ADD => 300,
            Opcode::SUB => 301,
            Opcode::MUL => 302,
            Opcode::QUO => 303,
            Opcode::REM => 304,
            Opcode::AND => 305,
            Opcode::OR => 306,
            Opcode::XOR => 307,
            Opcode::SHL => 308,
            Opcode::SHR => 309,
            Opcode::AND_NOT => 310,
            Opcode::UNARY_ADD => 311,
            Opcode::UNARY_SUB => 312,
            Opcode::UNARY_XOR => 313,
            Opcode::REF => 314,
            Opcode::DEREF => 315,
            Opcode::ARROW => 316,
            Opcode::NOT => 317,
            Opcode::EQL => 318,
            Opcode::LSS => 319,
            Opcode::GTR => 320,
            Opcode::NEQ => 321,
            Opcode::LEQ => 322,
            Opcode::GEQ => 323,
            Opcode::PRE_CALL => 400,
            Opcode::CALL => 401,
            Opcode::CALL_ELLIPSIS => 402,
            Opcode::CLOSE_UPVALUE => 403,
            Opcode::RETURN => 404,
            Opcode::RETURN_INIT_PKG => 405,
            Opcode::JUMP => 500,
            Opcode::JUMP_IF => 501,
            Opcode::JUMP_IF_NOT => 502,
            Opcode::LOOP => 503,
            Opcode::RANGE => 504,
            Opcode::IMPORT => 600,
            Opcode::SLICE => 601,
            Opcode::SLICE_FULL => 602,
            Opcode::NEW => 603,
            Opcode::MAKE => 604,
            Opcode::LEN => 605,
            Opcode::CAP => 606,
            Opcode::APPEND => 607,
            Opcode::ASSERT => 608,
        }
    }

    /// Mnemonic of the opcode.
    pub open spec fn name(self) -> Seq<char> {
        match self {
            Opcode::PUSH_CONST => "PUSH_CONST"@,
            Opcode::PUSH_NIL => "PUSH_NIL"@,
            Opcode::PUSH_FALSE => "PUSH_FALSE"@,
            Opcode::PUSH_TRUE => "PUSH_TRUE"@,
            Opcode::PUSH_IMM => "PUSH_IMM"@,
            Opcode::POP => "POP"@,
            Opcode::LOAD_LOCAL0 => "LOAD_LOCAL0"@,
            Opcode::LOAD_LOCAL1 => "LOAD_LOCAL1"@,
            Opcode::LOAD_LOCAL2 => "LOAD_LOCAL2"@,
            Opcode::LOAD_LOCAL3 => "LOAD_LOCAL3"@,
            Opcode::LOAD_LOCAL4 => "LOAD_LOCAL4"@,
            Opcode::LOAD_LOCAL5 => "LOAD_LOCAL5"@,
            Opcode::LOAD_LOCAL6 => "LOAD_LOCAL6"@,
            Opcode::LOAD_LOCAL7 => "LOAD_LOCAL7"@,
            Opcode::LOAD_LOCAL8 => "LOAD_LOCAL8"@,
            Opcode::LOAD_LOCAL9 => "LOAD_LOCAL9"@,
            Opcode::LOAD_LOCAL10 => "LOAD_LOCAL10"@,
            Opcode::LOAD_LOCAL11 => "LOAD_LOCAL11"@,
            Opcode::LOAD_LOCAL12 => "LOAD_LOCAL12"@,
            Opcode::LOAD_LOCAL13 => "LOAD_LOCAL13"@,
            Opcode::LOAD_LOCAL14 => "LOAD_LOCAL14"@,
            Opcode::LOAD_LOCAL15 => "LOAD_LOCAL15"@,
            Opcode::LOAD_LOCAL => "LOAD_LOCAL"@,
            Opcode::STORE_LOCAL => "STORE_LOCAL"@,
            Opcode::STORE_LOCAL_NT => "STORE_LOCAL_NT"@,
            Opcode::STORE_LOCAL_OP => "STORE_LOCAL_OP"@,
            Opcode::LOAD_UPVALUE => "LOAD_LOCAL"@,
            Opcode::STORE_UPVALUE => "STORE_UPVALUE"@,
            Opcode::STORE_UPVALUE_NT => "STORE_UPVALUE_NT"@,
            Opcode::STORE_UPVALUE_OP => "STORE_UPVALUE_OP"@,
            Opcode::LOAD_FIELD => "LOAD_FIELD"@,
            Opcode::STORE_FIELD => "STORE_FIELD"@,
            Opcode::STORE_FIELD_NT => "STORE_FIELD_NT"@,
            Opcode::STORE_FIELD_OP => "STORE_FIELD_OP"@,
            Opcode::LOAD_FIELD_IMM => "LOAD_FIELD_IMM"@,
            Opcode::STORE_FIELD_IMM => "STORE_FIELD_IMM"@,
            Opcode::STORE_FIELD_IMM_NT => "STORE_FIELD_IMM_NT"@,
            Opcode::STORE_FIELD_IMM_OP => "STORE_FIELD_IMM_OP"@,
            Opcode::LOAD_THIS_PKG_FIELD => "LOAD_THIS_PKG_FIELD"@,
            Opcode::STORE_THIS_PKG_FIELD => "STORE_THIS_PKG_FIELD"@,
            Opcode::STORE_THIS_PKG_FIELD_NT => "STORE_THIS_PKG_FIELD_NT"@,
            Opcode::STORE_THIS_PKG_FIELD_OP => "STORE_THIS_PKG_FIELD_OP"@,
            Opcode::STORE_DEREF => "STORE_DEREF"@,
            Opcode::STORE_DEREF_NT => "STORE_DEREF_NT"@,
            Opcode::STORE_DEREF_OP => "STORE_DEREF_OP"@,
            Opcode::ADD => "ADD"@,
            Opcode::SUB => "SUB"@,
            Opcode::MUL => "MUL"@,
            Opcode::QUO => "QUO"@,
            Opcode::REM => "REM"@,
            Opcode::AND => "AND"@,
            Opcode::OR => "OR"@,
            Opcode::XOR => "XOR"@,
            Opcode::SHL => "SHL"@,
            Opcode::SHR => "SHR"@,
            Opcode::AND_NOT => "AND_NOT"@,
            Opcode::UNARY_ADD => "UNARY_ADD"@,
            Opcode::UNARY_SUB => "UNARY_SUB"@,
            Opcode::UNARY_XOR => "UNARY_XOR"@,
            Opcode::REF => "REF"@,
            Opcode::DEREF => "DEREF"@,
            Opcode::ARROW => "ARROW"@,
            Opcode::NOT => "LNOT"@,
            Opcode::EQL => "EQL"@,
            Opcode::LSS => "LSS"@,
            Opcode::GTR => "GTR"@,
            Opcode::NEQ => "NEQ"@,
            Opcode::LEQ => "LEQ"@,
            Opcode::GEQ => "GEQ"@,
            Opcode::PRE_CALL => "PRE_CALL"@,
            Opcode::CALL => "CALL"@,
            Opcode::CALL_ELLIPSIS => "CALL_ELLIPSIS"@,
            Opcode::CLOSE_UPVALUE => "CLOSE_UPVALUE"@,
            Opcode::RETURN => "RETURN"@,
            Opcode::RETURN_INIT_PKG => "RETURN_INIT_PKG"@,
            Opcode::JUMP => "JUMP"@,
            Opcode::JUMP_IF => "JUMP_IF"@,
            Opcode::JUMP_IF_NOT => "JUMP_IF_NOT"@,
            Opcode::LOOP => "LOOP"@,
            Opcode::RANGE => "RANGE"@,
            Opcode::IMPORT => "IMPORT"@,
            Opcode::SLICE => "SLICE"@,
            Opcode::SLICE_FULL => "SLICE_FULL"@,
            Opcode::NEW => "NEW"@,
            Opcode::MAKE => "MAKE"@,
            Opcode::LEN => "LEN"@,
            Opcode::CAP => "CAP"@,
            Opcode::APPEND => "APPEND"@,
            Opcode::ASSERT => "ASSERT"@,
        }
    }

    /// Net effect of the opcode on the evaluation-stack depth;
    /// -128 marks the opcodes whose effect varies with the call.
    pub open spec fn stack_delta(self) -> int {
        match self {
            Opcode::PUSH_CONST => 1,
            Opcode::PUSH_NIL => 1,
            Opcode::PUSH_FALSE => 1,
            Opcode::PUSH_TRUE => 1,
            Opcode::PUSH_IMM => 1,
            Opcode::POP => -1,
            Opcode::LOAD_LOCAL0 => 1,
            Opcode::LOAD_LOCAL1 => 1,
            Opcode::LOAD_LOCAL2 => 1,
            Opcode::LOAD_LOCAL3 => 1,
            Opcode::LOAD_LOCAL4 => 1,
            Opcode::LOAD_LOCAL5 => 1,
            Opcode::LOAD_LOCAL6 => 1,
            Opcode::LOAD_LOCAL7 => 1,
            Opcode::LOAD_LOCAL8 => 1,
            Opcode::LOAD_LOCAL9 => 1,
            Opcode::LOAD_LOCAL10 => 1,
            Opcode::LOAD_LOCAL11 => 1,
            Opcode::LOAD_LOCAL12 => 1,
            Opcode::LOAD_LOCAL13 => 1,
            Opcode::LOAD_LOCAL14 => 1,
            Opcode::LOAD_LOCAL15 => 1,
            Opcode::LOAD_LOCAL => 1,
            Opcode::STORE_LOCAL => 0,
            Opcode::STORE_LOCAL_NT => 0,
            Opcode::STORE_LOCAL_OP => 0,
            Opcode::LOAD_UPVALUE => 1,
            Opcode::STORE_UPVALUE => 0,
            Opcode::STORE_UPVALUE_NT => 0,
            Opcode::STORE_UPVALUE_OP => 0,
            Opcode::LOAD_FIELD => -1,
            Opcode::STORE_FIELD => 0,
            Opcode::STORE_FIELD_NT => 0,
            Opcode::STORE_FIELD_OP => 0,
            Opcode::LOAD_FIELD_IMM => 0,
            Opcode::STORE_FIELD_IMM => 0,
            Opcode::STORE_FIELD_IMM_NT => 0,
            Opcode::STORE_FIELD_IMM_OP => 0,
            Opcode::LOAD_THIS_PKG_FIELD => -1,
            Opcode::STORE_THIS_PKG_FIELD => 0,
            Opcode::STORE_THIS_PKG_FIELD_NT => 0,
            Opcode::STORE_THIS_PKG_FIELD_OP => 0,
            Opcode::STORE_DEREF => 0,
            Opcode::STORE_DEREF_NT => 0,
            Opcode::STORE_DEREF_OP => 0,
            Opcode::ADD => -1,
            Opcode::SUB => -1,
            Opcode::MUL => -1,
            Opcode::QUO => -1,
            Opcode::REM => -1,
            Opcode::AND => -1,
            Opcode::OR => -1,
            Opcode::XOR => -1,
            Opcode::SHL => -1,
            Opcode::SHR => -1,
            Opcode::AND_NOT => -1,
            Opcode::UNARY_ADD => 0,
            Opcode::UNARY_SUB => 0,
            Opcode::UNARY_XOR => 0,
            Opcode::REF => 0,
            Opcode::DEREF => 0,
            Opcode::ARROW => 0,
            Opcode::NOT => 0,
            Opcode::EQL => -1,
            Opcode::LSS => -1,
            Opcode::GTR => -1,
            Opcode::NEQ => -1,
            Opcode::LEQ => -1,
            Opcode::GEQ => -1,
            Opcode::PRE_CALL => -128,
            Opcode::CALL => -128,
            Opcode::CALL_ELLIPSIS => -128,
            Opcode::CLOSE_UPVALUE => -1,
            Opcode::RETURN => -128,
            Opcode::RETURN_INIT_PKG => -128,
            Opcode::JUMP => 0,
            Opcode::JUMP_IF => -1,
            Opcode::JUMP_IF_NOT => -1,
            Opcode::LOOP => 0,
            Opcode::RANGE => 1,
            Opcode::IMPORT => 0,
            Opcode::SLICE => -2,
            Opcode::SLICE_FULL => -3,
            Opcode::NEW => 0,
            Opcode::MAKE => 0,
            Opcode::LEN => 0,
            Opcode::CAP => 0,
            Opcode::APPEND => -128,
            Opcode::ASSERT => 0,
        }
    }

    /// The load opcode that a local load with slot index `i` dispatches to:
    /// one specialized opcode per slot in 0..=15, the generic one otherwise.
    pub open spec fn spec_get_load_local(i: OpIndex) -> Opcode {
        if i == 0 {
            Opcode::LOAD_LOCAL0
        } else if i == 1 {
            Opcode::LOAD_LOCAL1
        } else if i == 2 {
            Opcode::LOAD_LOCAL2
        } else if i == 3 {
            Opcode::LOAD_LOCAL3
        } else if i == 4 {
            Opcode::LOAD_LOCAL4
        } else if i == 5 {
            Opcode::LOAD_LOCAL5
        } else if i == 6 {
            Opcode::LOAD_LOCAL6
        } else if i == 7 {
            Opcode::LOAD_LOCAL7
        } else if i == 8 {
            Opcode::LOAD_LOCAL8
        } else if i == 9 {
            Opcode::LOAD_LOCAL9
        } else if i == 10 {
            Opcode::LOAD_LOCAL10
        } else if i == 11 {
            Opcode::LOAD_LOCAL11
        } else if i == 12 {
            Opcode::LOAD_LOCAL12
        } else if i == 13 {
            Opcode::LOAD_LOCAL13
        } else if i == 14 {
            Opcode::LOAD_LOCAL14
        } else if i == 15 {
            Opcode::LOAD_LOCAL15
        } else {
            Opcode::LOAD_LOCAL
        }
    }

    pub fn get_load_local(i: OpIndex) -> (r: Opcode)
        ensures
            r == Opcode::spec_get_load_local(i),
            0 <= i <= 15 ==> r.num() == 200 + i,
            !(0 <= i <= 15) ==> r == Opcode::LOAD_LOCAL,
    {
        match i {
            0 => Opcode::LOAD_LOCAL0,
            1 => Opcode::LOAD_LOCAL1,
            2 => Opcode::LOAD_LOCAL2,
            3 => Opcode::LOAD_LOCAL3,
            4 => Opcode::LOAD_LOCAL4,
            5 => Opcode::LOAD_LOCAL5,
            6 => Opcode::LOAD_LOCAL6,
            7 => Opcode::LOAD_LOCAL7,
            8 => Opcode::LOAD_LOCAL8,
            9 => Opcode::LOAD_LOCAL9,
            10 => Opcode::LOAD_LOCAL10,
            11 => Opcode::LOAD_LOCAL11,
            12 => Opcode::LOAD_LOCAL12,
            13 => Opcode::LOAD_LOCAL13,
            14 => Opcode::LOAD_LOCAL14,
            15 => Opcode::LOAD_LOCAL15,
            _ => Opcode::LOAD_LOCAL,
        }
    }

    /// The opcode's numeric encoding value.
    pub fn value(&self) -> (r: OpIndex)
        ensures
            r == self.num(),
            100 <= r <= 650,
    {
        match self {
            Opcode::PUSH_CONST => 100,
            Opcode::PUSH_NIL => 101,
            Opcode::PUSH_FALSE => 102,
            Opcode::PUSH_TRUE => 103,
            Opcode::PUSH_IMM => 104,
            Opcode::POP => 110,
            Opcode::LOAD_LOCAL0 => 200,
            Opcode::LOAD_LOCAL1 => 201,
            Opcode::LOAD_LOCAL2 => 202,
            Opcode::LOAD_LOCAL3 => 203,
            Opcode::LOAD_LOCAL4 => 204,
            Opcode::LOAD_LOCAL5 => 205,
            Opcode::LOAD_LOCAL6 => 206,
            Opcode::LOAD_LOCAL7 => 207,
            Opcode::LOAD_LOCAL8 => 208,
            Opcode::LOAD_LOCAL9 => 209,
            Opcode::LOAD_LOCAL10 => 210,
            Opcode::LOAD_LOCAL11 => 211,
            Opcode::LOAD_LOCAL12 => 212,
            Opcode::LOAD_LOCAL13 => 213,
            Opcode::LOAD_LOCAL14 => 214,
            Opcode::LOAD_LOCAL15 => 215,
            Opcode::LOAD_LOCAL => 220,
            Opcode::STORE_LOCAL => 221,
            Opcode::STORE_LOCAL_NT => 222,
            Opcode::STORE_LOCAL_OP => 223,
            Opcode::LOAD_UPVALUE => 230,
            Opcode::STORE_UPVALUE => 231,
            Opcode::STORE_UPVALUE_NT => 232,
            Opcode::STORE_UPVALUE_OP => 233,
            Opcode::LOAD_FIELD => 240,
            Opcode::STORE_FIELD => 241,
            Opcode::STORE_FIELD_NT => 242,
            Opcode::STORE_FIELD_OP => 243,
            Opcode::LOAD_FIELD_IMM => 250,
            Opcode::STORE_FIELD_IMM => 251,
            Opcode::STORE_FIELD_IMM_NT => 252,
            Opcode::STORE_FIELD_IMM_OP => 253,
            Opcode::LOAD_THIS_PKG_FIELD => 260,
            Opcode::STORE_THIS_PKG_FIELD => 261,
            Opcode::STORE_THIS_PKG_FIELD_NT => 262,
            Opcode::STORE_THIS_PKG_FIELD_OP => 263,
            Opcode::STORE_DEREF => 270,
            Opcode::STORE_DEREF_NT => 271,
            Opcode::STORE_DEREF_OP => 272,
            Opcode::ADD => 300,
            Opcode::SUB => 301,
            Opcode::MUL => 302,
            Opcode::QUO => 303,
            Opcode::REM => 304,
            Opcode::AND => 305,
            Opcode::OR => 306,
            Opcode::XOR => 307,
            Opcode::SHL => 308,
            Opcode::SHR => 309,
            Opcode::AND_NOT => 310,
            Opcode::UNARY_ADD => 311,
            Opcode::UNARY_SUB => 312,
            Opcode::UNARY_XOR => 313,
            Opcode::REF => 314,
            Opcode::DEREF => 315,
            Opcode::ARROW => 316,
            Opcode::NOT => 317,
            Opcode::EQL => 318,
            Opcode::LSS => 319,
            Opcode::GTR => 320,
            Opcode::NEQ => 321,
            Opcode::LEQ => 322,
            Opcode::GEQ => 323,
            Opcode::PRE_CALL => 400,
            Opcode::CALL => 401,
            Opcode::CALL_ELLIPSIS => 402,
            Opcode::CLOSE_UPVALUE => 403,
            Opcode::RETURN => 404,
            Opcode::RETURN_INIT_PKG => 405,
            Opcode::JUMP => 500,
            Opcode::JUMP_IF => 501,
            Opcode::JUMP_IF_NOT => 502,
            Opcode::LOOP => 503,
            Opcode::RANGE => 504,
            Opcode::IMPORT => 600,
            Opcode::SLICE => 601,
            Opcode::SLICE_FULL => 602,
            Opcode::NEW => 603,
            Opcode::MAKE => 604,
            Opcode::LEN => 605,
            Opcode::CAP => 606,
            Opcode::APPEND => 607,
            Opcode::ASSERT => 608,
        }
    }

    /// Position of the opcode within a family, counted from the family's
    /// base opcode.
    #[inline]
    pub fn offset(&self, base: Opcode) -> (r: OpIndex)
        ensures
            r == self.num() - base.num(),
    {
        self.value() - base.value()
    }

    /// Mnemonic and stack effect of the opcode.
    pub fn property(&self) -> (r: (&'static str, i8))
        ensures
            r.0@ == self.name(),
            r.1 as int == self.stack_delta(),
    {
        match self {
            Opcode::PUSH_CONST => ("PUSH_CONST", 1),
            Opcode::PUSH_NIL => ("PUSH_NIL", 1),
            Opcode::PUSH_FALSE => ("PUSH_FALSE", 1),
            Opcode::PUSH_TRUE => ("PUSH_TRUE", 1),
            Opcode::PUSH_IMM => ("PUSH_IMM", 1),
            Opcode::POP => ("POP", -1),
            Opcode::LOAD_LOCAL0 => ("LOAD_LOCAL0", 1),
            Opcode::LOAD_LOCAL1 => ("LOAD_LOCAL1", 1),
            Opcode::LOAD_LOCAL2 => ("LOAD_LOCAL2", 1),
            Opcode::LOAD_LOCAL3 => ("LOAD_LOCAL3", 1),
            Opcode::LOAD_LOCAL4 => ("LOAD_LOCAL4", 1),
            Opcode::LOAD_LOCAL5 => ("LOAD_LOCAL5", 1),
            Opcode::LOAD_LOCAL6 => ("LOAD_LOCAL6", 1),
            Opcode::LOAD_LOCAL7 => ("LOAD_LOCAL7", 1),
            Opcode::LOAD_LOCAL8 => ("LOAD_LOCAL8", 1),
            Opcode::LOAD_LOCAL9 => ("LOAD_LOCAL9", 1),
            Opcode::LOAD_LOCAL10 => ("LOAD_LOCAL10", 1),
            Opcode::LOAD_LOCAL11 => ("LOAD_LOCAL11", 1),
            Opcode::LOAD_LOCAL12 => ("LOAD_LOCAL12", 1),
            Opcode::LOAD_LOCAL13 => ("LOAD_LOCAL13", 1),
            Opcode::LOAD_LOCAL14 => ("LOAD_LOCAL14", 1),
            Opcode::LOAD_LOCAL15 => ("LOAD_LOCAL15", 1),
            Opcode::LOAD_LOCAL => ("LOAD_LOCAL", 1),
            Opcode::STORE_LOCAL => ("STORE_LOCAL", 0),
            Opcode::STORE_LOCAL_NT => ("STORE_LOCAL_NT", 0),
            Opcode::STORE_LOCAL_OP => ("STORE_LOCAL_OP", 0),
            Opcode::LOAD_UPVALUE => ("LOAD_LOCAL", 1),
            Opcode::STORE_UPVALUE => ("STORE_UPVALUE", 0),
            Opcode::STORE_UPVALUE_NT => ("STORE_UPVALUE_NT", 0),
            Opcode::STORE_UPVALUE_OP => ("STORE_UPVALUE_OP", 0),
            Opcode::LOAD_FIELD => ("LOAD_FIELD", -1),
            Opcode::STORE_FIELD => ("STORE_FIELD", 0),
            Opcode::STORE_FIELD_NT => ("STORE_FIELD_NT", 0),
            Opcode::STORE_FIELD_OP => ("STORE_FIELD_OP", 0),
            Opcode::LOAD_FIELD_IMM => ("LOAD_FIELD_IMM", 0),
            Opcode::STORE_FIELD_IMM => ("STORE_FIELD_IMM", 0),
            Opcode::STORE_FIELD_IMM_NT => ("STORE_FIELD_IMM_NT", 0),
            Opcode::STORE_FIELD_IMM_OP => ("STORE_FIELD_IMM_OP", 0),
            Opcode::LOAD_THIS_PKG_FIELD => ("LOAD_THIS_PKG_FIELD", -1),
            Opcode::STORE_THIS_PKG_FIELD => ("STORE_THIS_PKG_FIELD", 0),
            Opcode::STORE_THIS_PKG_FIELD_NT => ("STORE_THIS_PKG_FIELD_NT", 0),
            Opcode::STORE_THIS_PKG_FIELD_OP => ("STORE_THIS_PKG_FIELD_OP", 0),
            Opcode::STORE_DEREF => ("STORE_DEREF", 0),
            Opcode::STORE_DEREF_NT => ("STORE_DEREF_NT", 0),
            Opcode::STORE_DEREF_OP => ("STORE_DEREF_OP", 0),
            Opcode::ADD => ("ADD", -1),
            Opcode::SUB => ("SUB", -1),
            Opcode::MUL => ("MUL", -1),
            Opcode::QUO => ("QUO", -1),
            Opcode::REM => ("REM", -1),
            Opcode::AND => ("AND", -1),
            Opcode::OR => ("OR", -1),
            Opcode::XOR => ("XOR", -1),
            Opcode::SHL => ("SHL", -1),
            Opcode::SHR => ("SHR", -1),
            Opcode::AND_NOT => ("AND_NOT", -1),
            Opcode::UNARY_ADD => ("UNARY_ADD", 0),
            Opcode::UNARY_SUB => ("UNARY_SUB", 0),
            Opcode::UNARY_XOR => ("UNARY_XOR", 0),
            Opcode::REF => ("REF", 0),
            Opcode::DEREF => ("DEREF", 0),
            Opcode::ARROW => ("ARROW", 0),
            Opcode::NOT => ("LNOT", 0),
            Opcode::EQL => ("EQL", -1),
            Opcode::LSS => ("LSS", -1),
            Opcode::GTR => ("GTR", -1),
            Opcode::NEQ => ("NEQ", -1),
            Opcode::LEQ => ("LEQ", -1),
            Opcode::GEQ => ("GEQ", -1),
            Opcode::PRE_CALL => ("PRE_CALL", -128),
            Opcode::CALL => ("CALL", -128),
            Opcode::CALL_ELLIPSIS => ("CALL_ELLIPSIS", -128),
            Opcode::CLOSE_UPVALUE => ("CLOSE_UPVALUE", -1),
            Opcode::RETURN => ("RETURN", -128),
            Opcode::RETURN_INIT_PKG => ("RETURN_INIT_PKG", -128),
            Opcode::JUMP => ("JUMP", 0),
            Opcode::JUMP_IF => ("JUMP_IF", -1),
            Opcode::JUMP_IF_NOT => ("JUMP_IF_NOT", -1),
            Opcode::LOOP => ("LOOP", 0),
            Opcode::RANGE => ("RANGE", 1),
            Opcode::IMPORT => ("IMPORT", 0),
            Opcode::SLICE => ("SLICE", -2),
            Opcode::SLICE_FULL => ("SLICE_FULL", -3),
            Opcode::NEW => ("NEW", 0),
            Opcode::MAKE => ("MAKE", 0),
            Opcode::LEN => ("LEN", 0),
            Opcode::CAP => ("CAP", 0),
            Opcode::APPEND => ("APPEND", -128),
            Opcode::ASSERT => ("ASSERT", 0),
        }
    }

    /// Mnemonic of the opcode.
    pub fn text(&self) -> (r: &str)
        ensures
            r@ == self.name(),
    {
        let (t, _) = self.property();
        t
    }
}

/// One cell of the instruction stream: an opcode cell or the data cell that
/// immediately follows the opcode it belongs to.
#[derive(Clone, Copy, Debug, PartialEq, Eq, Structural)]
pub enum CodeData {
    Code(Opcode),
    Data(OpIndex),
}

impl CodeData {
    /// The opcode held by an opcode cell.
    pub fn unwrap_code(&self) -> (r: &Opcode)
        requires
            self is Code,
        ensures
            self matches CodeData::Code(c) && *r == c,
    {
        match self {
            CodeData::Code(code) => code,
            CodeData::Data(_) => unreached(),
        }
    }

    /// The operand held by a data cell.
    pub fn unwrap_data(&self) -> (r: &OpIndex)
        requires
            self is Data,
        ensures
            self matches CodeData::Data(d) && *r == d,
    {
        match self {
            CodeData::Code(_) => unreached(),
            CodeData::Data(data) => data,
        }
    }
}

} // verus!
