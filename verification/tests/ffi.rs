use gos_codegen::codegen::VMObjects;
use gos_codegen::value::{FuncFlag, GosValue, Meta, MetaKind};
use gos_codegen::vm::ffi::{CodeGenVMCtx, FfiFactory};

#[test]
fn factory_register_and_create() {
    let mut factory: FfiFactory<u32> = FfiFactory::new();
    factory.register("fmt.println", 1);
    factory.register("os.exit", 2);
    assert_eq!(factory.create("fmt.println"), Ok(1));
    assert_eq!(factory.create("os.exit"), Ok(2));
    assert_eq!(
        factory.create("net.dial"),
        Err("FFI named net.dial not found".to_string())
    );
}

#[test]
fn zero_values() {
    let ctx = CodeGenVMCtx::new(VMObjects::new());
    let ffi_ctx = ctx.ffi_ctx();
    assert_eq!(ffi_ctx.zero_val(&Meta { kind: MetaKind::Int }), GosValue::Int(0));
    assert_eq!(
        ffi_ctx.zero_val(&Meta { kind: MetaKind::Bool }),
        GosValue::Bool(false)
    );
    assert_eq!(ffi_ctx.zero_val(&Meta { kind: MetaKind::Float64 }), GosValue::Float(0));
    assert_eq!(ffi_ctx.zero_val(&Meta { kind: MetaKind::Str }), GosValue::Nil);
    assert_eq!(ffi_ctx.func_name, "dummy_name");
}

#[test]
fn function_records_keep_their_metadata() {
    let mut ctx = CodeGenVMCtx::new(VMObjects::new());
    let m = Meta { kind: MetaKind::Function };
    let v = ctx.function_with_meta(None, m, FuncFlag::Default);
    assert_eq!(v, GosValue::Function(0));
    assert_eq!(ctx.functions().len(), 1);
    assert_eq!(ctx.functions()[0].meta, Some(m));
    assert_eq!(ctx.functions()[0].package, None);
    // the metas arena is read-only here: no stray entry appears
    assert_eq!(ctx.metas().len(), 0);

    let v2 = ctx.function_with_meta(Some(4), m, FuncFlag::ZeroValue);
    assert_eq!(v2, GosValue::Function(1));
    assert_eq!(ctx.functions()[1].package, Some(4));
    assert_eq!(ctx.metas().len(), 0);
}

#[test]
fn vm_ctx_accessors() {
    let mut ctx = CodeGenVMCtx::new(VMObjects::new());
    assert_eq!(ctx.objects().functions.len(), 0);
    assert_eq!(ctx.metas().len(), 0);
    assert_eq!(ctx.functions().len(), 0);
    assert_eq!(ctx.packages().len(), 0);
    assert_eq!(ctx.s_meta().mint.kind, MetaKind::Int);
    assert_eq!(ctx.gc_container().tracked_objs.len(), 0);

    let m = ctx.new_struct_meta(vec![
        Meta { kind: MetaKind::Int },
        Meta { kind: MetaKind::Bool },
    ]);
    assert_eq!(m.kind, MetaKind::Struct);
    assert_eq!(ctx.metas().len(), 2);
    ctx.metas_mut().push(Meta { kind: MetaKind::Str });
    ctx.objects_mut().strings.clear();
    ctx.functions_mut().clear();
    ctx.packages_mut().clear();

    let objs = ctx.into_vmo();
    assert_eq!(objs.metas.len(), 3);
}
