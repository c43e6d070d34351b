use gos_codegen::opcode::{CodeData, Opcode, MAX_INLINE_LOCAL_INDEX};

#[test]
fn test_opcode() {
    println!("opcode {} \n", Opcode::POP.text());
}

#[test]
fn get_load_local_specialized() {
    assert_eq!(Opcode::get_load_local(0), Opcode::LOAD_LOCAL0);
    assert_eq!(Opcode::get_load_local(3), Opcode::LOAD_LOCAL3);
    assert_eq!(Opcode::get_load_local(15), Opcode::LOAD_LOCAL15);
    assert_eq!(Opcode::get_load_local(16), Opcode::LOAD_LOCAL);
    assert_eq!(Opcode::get_load_local(20), Opcode::LOAD_LOCAL);
    assert_eq!(Opcode::get_load_local(-1), Opcode::LOAD_LOCAL);
    assert_eq!(MAX_INLINE_LOCAL_INDEX, 15);
}

#[test]
fn load_local_index_is_slot() {
    assert_eq!(Opcode::LOAD_LOCAL0.load_local_index(), 0);
    assert_eq!(Opcode::LOAD_LOCAL3.load_local_index(), 3);
    assert_eq!(Opcode::LOAD_LOCAL15.load_local_index(), 15);
}

#[test]
fn opcode_values() {
    assert_eq!(Opcode::PUSH_CONST.value(), 100);
    assert_eq!(Opcode::POP.value(), 110);
    assert_eq!(Opcode::LOAD_LOCAL.value(), 220);
    assert_eq!(Opcode::LOAD_UPVALUE.value(), 230);
    assert_eq!(Opcode::RETURN.value(), 404);
    assert_eq!(Opcode::NEW_MAP.value(), 603);
}

#[test]
fn opcode_properties() {
    assert_eq!(Opcode::PUSH_CONST.property(), ("PUSH_CONST", 1));
    assert_eq!(Opcode::POP.property(), ("POP", -1));
    assert_eq!(Opcode::STORE_LOCAL.property(), ("STORE_LOCAL", 0));
    assert_eq!(Opcode::CALL.property(), ("CALL", -128));
    assert_eq!(Opcode::NEW_CLOSURE.property(), ("NEW_CLOSURE", 1));
    assert_eq!(Opcode::ADD.property(), ("ADD", -1));
    assert_eq!(Opcode::POP.text(), "POP");
}

#[test]
fn code_data_unwrap() {
    let c = CodeData::Code(Opcode::RETURN);
    let d = CodeData::Data(42);
    assert_eq!(*c.unwrap_code(), Opcode::RETURN);
    assert_eq!(*d.unwrap_data(), 42);
}
