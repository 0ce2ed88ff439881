use cvere_vm::decoder::{DecodedInstruction, InstructionDecoder, InstructionFormat};

#[test]
fn test_decode_add() {
    let instr = 0x1312; // ADD R3, R1, R2
    let decoded = InstructionDecoder::decode(instr);
    assert_eq!(decoded.format, InstructionFormat::RType);
    assert_eq!(decoded.mnemonic, "ADD");
    assert_eq!(decoded.rd, 3);
    assert_eq!(decoded.rs, 1);
    assert_eq!(decoded.rt, 2);
}

#[test]
fn test_decode_loadi() {
    let instr = 0xC105; // LOADI R1, 0x05
    let decoded = InstructionDecoder::decode(instr);
    assert_eq!(decoded.format, InstructionFormat::IType);
    assert_eq!(decoded.mnemonic, "LOADI");
    assert_eq!(decoded.rd, 1);
    assert_eq!(decoded.imm8, 0x05);
}

#[test]
fn test_decode_halt() {
    let instr = 0xFFFF; // HALT
    let decoded = InstructionDecoder::decode(instr);
    assert_eq!(decoded.format, InstructionFormat::Special);
    assert_eq!(decoded.mnemonic, "HALT");
}

#[test]
fn test_decode_special_words() {
    let nop = InstructionDecoder::decode(0x0000);
    assert_eq!(nop.format, InstructionFormat::Special);
    assert_eq!(nop.mnemonic, "NOP");

    let halt = InstructionDecoder::decode(0xFFFF);
    assert_eq!(halt.format, InstructionFormat::Special);
    assert_eq!(halt.mnemonic, "HALT");

    let loadi = InstructionDecoder::decode(0xC105);
    assert_eq!(loadi.format, InstructionFormat::IType);
    assert_eq!(loadi.mnemonic, "LOADI");
    assert_eq!(loadi.rd, 1);
    assert_eq!(loadi.imm8, 0x05);
}

fn same_decoding(a: &DecodedInstruction, b: &DecodedInstruction) -> bool {
    a.format == b.format
        && a.opcode == b.opcode
        && a.rd == b.rd
        && a.rs == b.rs
        && a.rt == b.rt
        && a.imm8 == b.imm8
        && a.offset == b.offset
        && a.addr12 == b.addr12
        && a.mnemonic == b.mnemonic
}

#[test]
fn test_decode_deterministic() {
    // Decoding is a pure function of the word: two calls agree on every
    // field, over a sweep of words covering every opcode family.
    let words: [u16; 22] = [
        0x0000, 0xFFFF, 0x1312, 0x2101, 0x3321, 0x4123, 0x5123, 0x6123, 0x7120, 0x8123, 0x9123,
        0xA123, 0xB123, 0xC105, 0xD123, 0xE3FD, 0xF3FD, 0xFF02, 0xFF10, 0xFF21, 0xFF32, 0x0FFF,
    ];
    for &w in words.iter() {
        let a = InstructionDecoder::decode(w);
        let b = InstructionDecoder::decode(w);
        assert!(same_decoding(&a, &b));
    }
}

#[test]
fn test_decode_extended_family() {
    // The extended family is selected by bits 11-4 of a 0xF-family word.
    let call = InstructionDecoder::decode(0xFF02);
    assert_eq!(call.format, InstructionFormat::Extended);
    assert_eq!(call.mnemonic, "CALL");

    let ret = InstructionDecoder::decode(0xFF10);
    assert_eq!(ret.format, InstructionFormat::Extended);
    assert_eq!(ret.mnemonic, "RET");

    let push = InstructionDecoder::decode(0xFF21);
    assert_eq!(push.format, InstructionFormat::Extended);
    assert_eq!(push.mnemonic, "PUSH");

    let pop = InstructionDecoder::decode(0xFF32);
    assert_eq!(pop.format, InstructionFormat::Extended);
    assert_eq!(pop.mnemonic, "POP");

    // Any other word in the 0xF family is BNE
    let bne = InstructionDecoder::decode(0xF3FD);
    assert_eq!(bne.format, InstructionFormat::BType);
    assert_eq!(bne.mnemonic, "BNE");
    assert_eq!(bne.rd, 3);
    assert_eq!(bne.imm8, 0xFD);
}

#[test]
fn test_decode_field_extraction() {
    let d = InstructionDecoder::decode(0xA5C7);
    assert_eq!(d.opcode, 0xA);
    assert_eq!(d.rd, 0x5);
    assert_eq!(d.rs, 0xC);
    assert_eq!(d.rt, 0x7);
    assert_eq!(d.imm8, 0xC7);
    assert_eq!(d.offset, 0x7);
    assert_eq!(d.addr12, 0x5C7);
}

#[test]
fn test_format_rtype() {
    let d = InstructionDecoder::decode(0x1312);
    assert_eq!(InstructionDecoder::format_instruction(&d), "ADD R3, R1, R2");
}

#[test]
fn test_format_not_two_operands() {
    // NOT renders only its destination and source
    let d = InstructionDecoder::decode(0x7120);
    assert_eq!(InstructionDecoder::format_instruction(&d), "NOT R1, R2");
}

#[test]
fn test_format_itype() {
    let d = InstructionDecoder::decode(0xC105);
    assert_eq!(InstructionDecoder::format_instruction(&d), "LOADI R1, 0x05");
}

#[test]
fn test_format_mtype() {
    let d = InstructionDecoder::decode(0xA5C7);
    assert_eq!(InstructionDecoder::format_instruction(&d), "LOAD R5, RC, 0x7");
}

#[test]
fn test_format_jtype() {
    let d = InstructionDecoder::decode(0xD123);
    assert_eq!(InstructionDecoder::format_instruction(&d), "JMP 0x123");
}

#[test]
fn test_format_btype_negative_offset() {
    // 0xFD read as signed is -3
    let d = InstructionDecoder::decode(0xF3FD);
    assert_eq!(InstructionDecoder::format_instruction(&d), "BNE R3, -3");
    let d = InstructionDecoder::decode(0xE205);
    assert_eq!(InstructionDecoder::format_instruction(&d), "BEQ R2, 5");
}

#[test]
fn test_format_bare_mnemonics() {
    let d = InstructionDecoder::decode(0xFF10);
    assert_eq!(InstructionDecoder::format_instruction(&d), "RET");
    let d = InstructionDecoder::decode(0x0000);
    assert_eq!(InstructionDecoder::format_instruction(&d), "NOP");
}

#[test]
fn test_disassemble_line() {
    assert_eq!(
        InstructionDecoder::disassemble(0x0004, 0x1312),
        "0004: 1312  ADD R3, R1, R2"
    );
    assert_eq!(
        InstructionDecoder::disassemble(0xFFFE, 0xFFFF),
        "FFFE: FFFF  HALT"
    );
}
