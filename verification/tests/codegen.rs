use gos_codegen::ast::{
    AssignOp, AssignStmt, BasicLit, BinOp, BlockStmt, Decl, Expr, Field, FieldList, File,
    FuncDecl, FuncLit, FuncType, Ident, ReturnStmt, Stmt, Token,
};
use gos_codegen::codegen::{
    ByteCode, CgError, CodeGen, Construct, FnEntIndex, FunctionVal, PackageVal, UpValue,
    Violation,
};
use gos_codegen::opcode::{CodeData, Opcode};
use gos_codegen::value::GosValue;

fn ident(name: &str, entity: Option<u64>) -> Ident {
    Ident { name: name.to_string(), entity }
}

fn int_lit(v: i64) -> Expr {
    Expr::BasicLit(BasicLit { token: Token::Int(v) })
}

fn block(list: Vec<Stmt>) -> BlockStmt {
    BlockStmt { list }
}

fn no_args() -> FuncType {
    FuncType { params: FieldList { list: vec![] }, results: None }
}

fn func_decl(name: &str, entity: u64, typ: FuncType, body: BlockStmt) -> Decl {
    Decl::Func(FuncDecl { name: ident(name, Some(entity)), typ, body: Some(body) })
}

fn compile(f: &File) -> (ByteCode, Option<usize>) {
    let mut cg = CodeGen::new();
    cg.gen(f).expect("compilation should succeed");
    cg.into_byte_code()
}

fn compile_err(f: &File) -> CgError {
    let mut cg = CodeGen::new();
    cg.gen(f).expect_err("compilation should fail")
}

fn one_func_file(body: BlockStmt) -> File {
    File {
        name: ident("mypkg", None),
        decls: vec![func_decl("main", 1, no_args(), body)],
    }
}

fn code(op: Opcode) -> CodeData {
    CodeData::Code(op)
}

fn data(i: i16) -> CodeData {
    CodeData::Data(i)
}

// Slot layout and counts: total slots = returns + parameters + body locals,
// each category contiguous from its base.
#[test]
fn slot_layout_returns_params_locals() {
    let typ = FuncType {
        params: FieldList { list: vec![Field { names: vec![ident("p1", Some(3)), ident("p2", Some(4))] }] },
        results: Some(FieldList { list: vec![Field { names: vec![] }] }),
    };
    let body = block(vec![
        Stmt::Assign(AssignStmt {
            lhs: vec![Expr::Ident(ident("x", Some(5)))],
            op: AssignOp::Define,
            rhs: vec![int_lit(5)],
        }),
        // loading the first parameter resolves to slot 1: returns come first
        Stmt::Expr(Box::new(Expr::Ident(ident("p1", Some(3))))),
    ]);
    let f = File { name: ident("mypkg", None), decls: vec![func_decl("main", 1, typ, body)] };
    let (bc, _) = compile(&f);
    let rec: &FunctionVal = &bc.objects.functions[0];
    assert_eq!(rec.ret_count, 1);
    assert_eq!(rec.param_count, 2);
    assert_eq!(rec.local_alloc, 4);
    assert_eq!(rec.local_count(), 1);
    // p1 sits right after the return slot, x right after the parameters
    assert_eq!(
        rec.code,
        vec![
            // x := 5
            code(Opcode::PUSH_CONST),
            data(0),
            code(Opcode::STORE_LOCAL),
            data(3),
            code(Opcode::POP),
            // p1
            code(Opcode::LOAD_LOCAL1),
            // safety net
            code(Opcode::RETURN),
        ]
    );
}

// Resolution precedence: a package member is found only when no local or
// enclosing binding exists, and the same input compiles the same way twice.
#[test]
fn resolution_package_member_and_determinism() {
    let f = File {
        name: ident("mypkg", None),
        decls: vec![
            func_decl("helper", 10, no_args(), block(vec![])),
            func_decl(
                "main",
                11,
                no_args(),
                block(vec![Stmt::Expr(Box::new(Expr::Ident(ident("helper", Some(10)))))]),
            ),
        ],
    };
    let (bc1, _) = compile(&f);
    let (bc2, _) = compile(&f);
    let main_rec = &bc1.objects.functions[1];
    assert_eq!(
        main_rec.code,
        vec![code(Opcode::LOAD_PKG_VAR), data(0), code(Opcode::RETURN)]
    );
    assert_eq!(bc1.objects.functions[1].code, bc2.objects.functions[1].code);
    assert_eq!(bc1.objects.functions[1].up_ptrs, bc2.objects.functions[1].up_ptrs);
}

// The discard identifier takes no slot and gets no store instruction: the
// value assigned to it is simply popped.
#[test]
fn discard_target_emits_pop_only() {
    let body = block(vec![Stmt::Assign(AssignStmt {
        lhs: vec![Expr::Ident(ident("_", None)), Expr::Ident(ident("a", Some(2)))],
        op: AssignOp::Define,
        rhs: vec![int_lit(7), int_lit(8)],
    })]);
    let (bc, _) = compile(&one_func_file(body));
    let rec = &bc.objects.functions[0];
    assert_eq!(rec.local_alloc, 1); // only `a` took a slot
    assert_eq!(
        rec.code,
        vec![
            code(Opcode::PUSH_CONST),
            data(0),
            code(Opcode::PUSH_CONST),
            data(1),
            // store for `a` (the rightmost value) first...
            code(Opcode::STORE_LOCAL),
            data(0),
            code(Opcode::POP),
            // ...then the discard target: no store instruction, just a pop
            code(Opcode::POP),
            code(Opcode::RETURN),
        ]
    );
}

// Loading the discard identifier is an internal error, never a load.
#[test]
fn discard_load_is_internal_error() {
    let body = block(vec![Stmt::Expr(Box::new(Expr::Ident(ident("_", None))))]);
    let e = compile_err(&one_func_file(body));
    assert_eq!(e, CgError::Internal(Violation::BlankLoad));
}

// Constant pool entries are never deduplicated: two identical literals get
// two distinct pool slots.
#[test]
fn constants_not_deduplicated() {
    let body = block(vec![Stmt::Assign(AssignStmt {
        lhs: vec![Expr::Ident(ident("a", Some(2))), Expr::Ident(ident("b", Some(3)))],
        op: AssignOp::Define,
        rhs: vec![int_lit(7), int_lit(7)],
    })]);
    let (bc, _) = compile(&one_func_file(body));
    let rec = &bc.objects.functions[0];
    assert_eq!(rec.consts, vec![GosValue::Int(7), GosValue::Int(7)]);
    assert_eq!(
        rec.code,
        vec![
            code(Opcode::PUSH_CONST),
            data(0),
            code(Opcode::PUSH_CONST),
            data(1),
            code(Opcode::STORE_LOCAL),
            data(1),
            code(Opcode::POP),
            code(Opcode::STORE_LOCAL),
            data(0),
            code(Opcode::POP),
            code(Opcode::RETURN),
        ]
    );
}

// Multi-target assignment: right-hand sides in source order, stores in
// reverse target order.
#[test]
fn multi_target_assignment_reverse_stores() {
    let body = block(vec![Stmt::Assign(AssignStmt {
        lhs: vec![Expr::Ident(ident("a", Some(2))), Expr::Ident(ident("b", Some(3)))],
        op: AssignOp::Define,
        rhs: vec![int_lit(1), int_lit(2)],
    })]);
    let (bc, _) = compile(&one_func_file(body));
    let rec = &bc.objects.functions[0];
    assert_eq!(rec.consts, vec![GosValue::Int(1), GosValue::Int(2)]);
    // store(b); store(a)
    assert_eq!(
        &rec.code[4..10],
        &[
            code(Opcode::STORE_LOCAL),
            data(1),
            code(Opcode::POP),
            code(Opcode::STORE_LOCAL),
            data(0),
            code(Opcode::POP),
        ]
    );
}

// A function with an empty body still emits exactly one return instruction.
#[test]
fn empty_body_single_return() {
    let (bc, _) = compile(&one_func_file(block(vec![])));
    let rec = &bc.objects.functions[0];
    assert_eq!(rec.code, vec![code(Opcode::RETURN)]);
}

// A top-level function named like the entry point becomes both a member and
// the entry-point reference; a later, differently named function does not
// change the reference.
#[test]
fn entry_point_registration() {
    let f = File {
        name: ident("mypkg", None),
        decls: vec![
            func_decl("main", 1, no_args(), block(vec![])),
            func_decl("other", 2, no_args(), block(vec![])),
        ],
    };
    let (bc, entry) = compile(&f);
    assert_eq!(entry, Some(0));
    let pkg: &PackageVal = &bc.objects.packages[0];
    assert_eq!(pkg.main_func, Some(0));
    assert_eq!(
        pkg.members,
        vec![GosValue::Function(0), GosValue::Function(1)]
    );
    assert_eq!(pkg.look_up, vec![(1, 0), (2, 1)]);
    assert_eq!(pkg.name, "mypkg");
}

// Setting the entry point a second time is reported, not overwritten.
#[test]
fn second_entry_point_is_reported() {
    let f = File {
        name: ident("mypkg", None),
        decls: vec![
            func_decl("main", 1, no_args(), block(vec![])),
            func_decl("main", 2, no_args(), block(vec![])),
        ],
    };
    let e = compile_err(&f);
    assert_eq!(e, CgError::Internal(Violation::EntryPointReset));
}

// A nested function literal capturing an outer variable gets exactly one
// open captured-variable descriptor, reused on the second reference.
#[test]
fn upvalue_descriptor_created_once() {
    let inner = FuncLit {
        typ: no_args(),
        body: block(vec![
            Stmt::Expr(Box::new(Expr::Ident(ident("x", Some(7))))),
            Stmt::Expr(Box::new(Expr::Ident(ident("x", Some(7))))),
        ]),
    };
    let body = block(vec![
        Stmt::Assign(AssignStmt {
            lhs: vec![Expr::Ident(ident("x", Some(7)))],
            op: AssignOp::Define,
            rhs: vec![int_lit(1)],
        }),
        Stmt::Expr(Box::new(Expr::FuncLit(inner))),
    ]);
    let (bc, _) = compile(&one_func_file(body));
    // key 0: the outer declared function; key 1: the literal
    let inner_rec = &bc.objects.functions[1];
    assert_eq!(inner_rec.up_ptrs, vec![UpValue::Open(0, 0)]);
    assert_eq!(
        inner_rec.code,
        vec![
            code(Opcode::LOAD_UPVALUE),
            data(0),
            code(Opcode::LOAD_UPVALUE),
            data(0),
            code(Opcode::RETURN),
        ]
    );
    // the enclosing function loads the literal as a constant and
    // materializes the closure
    let outer_rec = &bc.objects.functions[0];
    assert_eq!(outer_rec.consts[1], GosValue::Function(1));
    let n = outer_rec.code.len();
    assert_eq!(
        &outer_rec.code[n - 4..],
        &[
            code(Opcode::PUSH_CONST),
            data(1),
            code(Opcode::NEW_CLOSURE),
            code(Opcode::RETURN),
        ]
    );
}

// Specialized local loads: slot 3 is one cell, slot 20 takes the generic
// opcode with one trailing data cell.
#[test]
fn local_load_encodings() {
    let mut f = FunctionVal::new(Some(0));
    f.emit_load(FnEntIndex::LocalVar(3));
    assert_eq!(f.code, vec![code(Opcode::LOAD_LOCAL3)]);
    let mut g = FunctionVal::new(Some(0));
    g.emit_load(FnEntIndex::LocalVar(20));
    assert_eq!(g.code, vec![code(Opcode::LOAD_LOCAL), data(20)]);
}

// Calls bracket their arguments between the begin-call marker and the
// perform-call instruction, callee loaded first.
#[test]
fn call_protocol() {
    let call = Expr::Call(gos_codegen::ast::CallExpr {
        func: Box::new(Expr::Ident(ident("helper", Some(10)))),
        args: vec![int_lit(4), int_lit(5)],
    });
    let f = File {
        name: ident("mypkg", None),
        decls: vec![
            func_decl("helper", 10, no_args(), block(vec![])),
            func_decl("main", 11, no_args(), block(vec![Stmt::Expr(Box::new(call))])),
        ],
    };
    let (bc, _) = compile(&f);
    let rec = &bc.objects.functions[1];
    assert_eq!(
        rec.code,
        vec![
            code(Opcode::LOAD_PKG_VAR),
            data(0),
            code(Opcode::PRE_CALL),
            code(Opcode::PUSH_CONST),
            data(0),
            code(Opcode::PUSH_CONST),
            data(1),
            code(Opcode::CALL),
            code(Opcode::RETURN),
        ]
    );
}

// Binary operators lower to primitive calls; return statements store each
// result into its return slot in order.
#[test]
fn binary_and_return() {
    let sum = Expr::Binary(gos_codegen::ast::BinaryExpr {
        left: Box::new(int_lit(1)),
        op: BinOp::Add,
        right: Box::new(int_lit(2)),
    });
    let typ = FuncType {
        params: FieldList { list: vec![] },
        results: Some(FieldList { list: vec![Field { names: vec![] }] }),
    };
    let body = block(vec![Stmt::Return(ReturnStmt { results: vec![sum] })]);
    let f = File { name: ident("mypkg", None), decls: vec![func_decl("main", 1, typ, body)] };
    let (bc, _) = compile(&f);
    let rec = &bc.objects.functions[0];
    assert_eq!(
        rec.code,
        vec![
            code(Opcode::PUSH_CONST),
            data(0),
            code(Opcode::PUSH_CONST),
            data(1),
            code(Opcode::CALL_PRIMI_2_1),
            data(0),
            code(Opcode::STORE_LOCAL),
            data(0),
            code(Opcode::POP),
            code(Opcode::RETURN),
            code(Opcode::RETURN),
        ]
    );
}

// String literals are interned, each occurrence separately.
#[test]
fn string_literals_interned() {
    let body = block(vec![Stmt::Expr(Box::new(Expr::BasicLit(BasicLit {
        token: Token::Str("hello".to_string()),
    })))]);
    let (bc, _) = compile(&one_func_file(body));
    assert_eq!(bc.objects.strings.len(), 1);
    assert_eq!(bc.objects.strings[0].data, "hello");
    assert!(!bc.objects.strings[0].dark);
    assert_eq!(bc.objects.functions[0].consts, vec![GosValue::Str(0)]);
}

// Unsupported constructs abort compilation, distinguishably from internal
// errors.
#[test]
fn unsupported_constructs_reported() {
    let e = compile_err(&one_func_file(block(vec![Stmt::For])));
    assert_eq!(e, CgError::Unsupported(Construct::ForStmt));

    let e = compile_err(&one_func_file(block(vec![Stmt::If])));
    assert_eq!(e, CgError::Unsupported(Construct::IfStmt));

    let e = compile_err(&one_func_file(block(vec![Stmt::Expr(Box::new(
        Expr::CompositeLit,
    ))])));
    assert_eq!(e, CgError::Unsupported(Construct::CompositeLitExpr));

    let e = compile_err(&File { name: ident("mypkg", None), decls: vec![Decl::Gen] });
    assert_eq!(e, CgError::Unsupported(Construct::GenDeclStmt));

    let e = compile_err(&File {
        name: ident("mypkg", None),
        decls: vec![Decl::Func(FuncDecl { name: ident("main", Some(1)), typ: no_args(), body: None })],
    });
    assert_eq!(e, CgError::Unsupported(Construct::FuncDeclWithoutBody));

    let e = compile_err(&one_func_file(block(vec![Stmt::Expr(Box::new(
        Expr::BasicLit(BasicLit { token: Token::Imag }),
    ))])));
    assert_eq!(e, CgError::Unsupported(Construct::ImagLit));

    let bin = Expr::Binary(gos_codegen::ast::BinaryExpr {
        left: Box::new(int_lit(1)),
        op: BinOp::Mul,
        right: Box::new(int_lit(2)),
    });
    let e = compile_err(&one_func_file(block(vec![Stmt::Expr(Box::new(bin))])));
    assert_eq!(e, CgError::Unsupported(Construct::BinaryOperator));
}

// Internal consistency violations are reported as such.
#[test]
fn internal_violations_reported() {
    // resolving an identity bound nowhere
    let e = compile_err(&one_func_file(block(vec![Stmt::Expr(Box::new(
        Expr::Ident(ident("nowhere", Some(99))),
    ))])));
    assert_eq!(e, CgError::Internal(Violation::UnresolvedEntity));

    // an identifier the validator left without an identity
    let e = compile_err(&one_func_file(block(vec![Stmt::Expr(Box::new(
        Expr::Ident(ident("x", None)),
    ))])));
    assert_eq!(e, CgError::Internal(Violation::MissingEntity));

    // a non-identifier assignment target
    let e = compile_err(&one_func_file(block(vec![Stmt::Assign(AssignStmt {
        lhs: vec![int_lit(1)],
        op: AssignOp::Assign,
        rhs: vec![int_lit(2)],
    })])));
    assert_eq!(e, CgError::Internal(Violation::NonIdentTarget));

    // declaring the same identity twice
    let mut f = FunctionVal::new(Some(0));
    assert_eq!(f.add_local(Some(5)), Ok(FnEntIndex::LocalVar(0)));
    assert_eq!(
        f.add_local(Some(5)),
        Err(CgError::Internal(Violation::DuplicateEntity))
    );

    // storing into a constant
    let mut f = FunctionVal::new(Some(0));
    assert_eq!(
        f.emit_store(FnEntIndex::Const(0)),
        Err(CgError::Internal(Violation::StoreToConst))
    );
    assert_eq!(
        f.emit_store(FnEntIndex::PackageMember(0)),
        Err(CgError::Unsupported(Construct::PackageMemberStore))
    );
}

// A bound identity can be fetched back from the entity table.
#[test]
fn entity_index_lookup() {
    let mut f = FunctionVal::new(Some(0));
    let idx = f.add_local(Some(9)).unwrap();
    assert_eq!(f.get_entity_index(9), idx);
    assert_eq!(idx, FnEntIndex::LocalVar(0));
    assert_eq!(idx.index(), 0);
}

// Slot indices stop at the largest index a data cell can carry.
#[test]
fn slot_index_overflow_reported() {
    let mut f = FunctionVal::new(Some(0));
    for _ in 0..32768 {
        f.add_local(None).unwrap();
    }
    assert_eq!(
        f.add_local(None),
        Err(CgError::Internal(Violation::IndexOverflow))
    );
}
