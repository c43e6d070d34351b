use gos_codegen::vm::opcode::{CodeData, Opcode};

#[test]
fn opcode_test_opcode() {
    println!("opcode {} \n", Opcode::POP.text());
}

#[test]
fn vm_get_load_local_specialized() {
    assert_eq!(Opcode::get_load_local(0), Opcode::LOAD_LOCAL0);
    assert_eq!(Opcode::get_load_local(9), Opcode::LOAD_LOCAL9);
    assert_eq!(Opcode::get_load_local(15), Opcode::LOAD_LOCAL15);
    assert_eq!(Opcode::get_load_local(16), Opcode::LOAD_LOCAL);
}

#[test]
fn vm_offset_within_family() {
    assert_eq!(Opcode::LOAD_LOCAL5.offset(Opcode::LOAD_LOCAL0), 5);
    assert_eq!(Opcode::STORE_LOCAL_OP.offset(Opcode::STORE_LOCAL), 2);
    assert_eq!(Opcode::GEQ.offset(Opcode::ADD), 23);
}

#[test]
fn vm_opcode_values() {
    assert_eq!(Opcode::PUSH_CONST.value(), 100);
    assert_eq!(Opcode::STORE_DEREF.value(), 270);
    assert_eq!(Opcode::ADD.value(), 300);
    assert_eq!(Opcode::PRE_CALL.value(), 400);
    assert_eq!(Opcode::RANGE.value(), 504);
    assert_eq!(Opcode::ASSERT.value(), 608);
}

#[test]
fn vm_opcode_properties() {
    assert_eq!(Opcode::SLICE.property(), ("SLICE", -2));
    assert_eq!(Opcode::SLICE_FULL.property(), ("SLICE_FULL", -3));
    assert_eq!(Opcode::CALL_ELLIPSIS.property(), ("CALL_ELLIPSIS", -128));
    assert_eq!(Opcode::NOT.property(), ("LNOT", 0));
    assert_eq!(Opcode::RANGE.property(), ("RANGE", 1));
}

#[test]
fn vm_code_data_unwrap() {
    let c = CodeData::Code(Opcode::MAKE);
    let d = CodeData::Data(-7);
    assert_eq!(*c.unwrap_code(), Opcode::MAKE);
    assert_eq!(*d.unwrap_data(), -7);
}
