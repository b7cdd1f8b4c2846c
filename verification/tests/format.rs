use pups2::instruction_format::InstructionFormat;

#[test]
fn mnemonic_follows_the_equals_sign() {
    assert_eq!(InstructionFormat("{rd} = addu {rs}, {rt}").mnemonic(), "addu");
    assert_eq!(InstructionFormat("  sync  ").mnemonic(), "sync");
    assert_eq!(InstructionFormat("{fd} =\tadd.s {fs}, {ft}").mnemonic(), "add.s");
    assert_eq!(InstructionFormat("sw {rt}, {offset:i16}({base})").mnemonic(), "sw");
}

#[test]
fn constructor_name_drops_dots_and_capitalises() {
    assert_eq!(InstructionFormat("{fd} = add.s {fs}, {ft}").constructor_name(), "Adds");
    assert_eq!(InstructionFormat("{rt} = addiu {rs}, {imm16}").constructor_name(), "Addiu");
    assert_eq!(InstructionFormat("unknown").constructor_name(), "Unknown");
}

#[test]
fn operands_in_order_without_types() {
    assert_eq!(
        InstructionFormat("sw {rt}, {offset:i16}({base})").operands(),
        vec!["rt", "offset", "base"]
    );
    assert_eq!(InstructionFormat("{rd} = addu {rs}, {rt}").operands(), vec!["rd", "rs", "rt"]);
    assert!(InstructionFormat("syscall").operands().is_empty());
}
