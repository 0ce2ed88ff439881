//! The instruction decoder: classifies a raw 16-bit word into a structured
//! instruction with typed fields, and renders decoded instructions as text.
//!
//! Decoding is a total, pure function of the word: every 16-bit input
//! produces some decoding, and the same word always produces the same one.

use vstd::prelude::*;
use vstd::string::StringExecFns;
use crate::text::{dec_digits, hex2, hex3, hex4, hex_digit, push_char, push_dec, push_hex2,
    push_hex3, push_hex4, push_hex_digit};

verus! {

/// Instruction format classes.
#[derive(Debug, Clone, Copy, PartialEq, Eq, Structural)]
pub enum InstructionFormat {
    /// Register operations.
    RType,
    /// Immediate operations.
    IType,
    /// Memory operations.
    MType,
    /// Jump operations.
    JType,
    /// Branch operations.
    BType,
    /// Extended instructions.
    Extended,
    /// Special cases (NOP, HALT, unknown opcodes).
    Special,
}

/// A decoded instruction: format tag, opcode, and every field extraction.
/// Fields not meaningful for a given format are extracted all the same and
/// simply unused by that format's consumers.
#[derive(Debug, Clone)]
pub struct DecodedInstruction {
    /// The format class of the instruction.
    pub format: InstructionFormat,
    /// The top nibble, bits 15-12.
    pub opcode: u8,
    /// Destination register, bits 11-8.
    pub rd: u8,
    /// First source register, bits 7-4.
    pub rs: u8,
    /// Second source register, bits 3-0.
    pub rt: u8,
    /// Immediate byte, bits 7-0.
    pub imm8: u8,
    /// Memory offset, bits 3-0.
    pub offset: u8,
    /// Jump target, bits 11-0.
    pub addr12: u16,
    /// The instruction's name.
    pub mnemonic: &'static str,
}

/// The top nibble of a word, bits 15-12.
pub open spec fn spec_opcode(w: u16) -> u8 {
    ((w >> 12) & 0xF) as u8
}

/// Bits 11-8 of a word.
pub open spec fn spec_rd(w: u16) -> u8 {
    ((w >> 8) & 0xF) as u8
}

/// Bits 7-4 of a word.
pub open spec fn spec_rs(w: u16) -> u8 {
    ((w >> 4) & 0xF) as u8
}

/// Bits 3-0 of a word.
pub open spec fn spec_rt(w: u16) -> u8 {
    (w & 0xF) as u8
}

/// Bits 7-0 of a word.
pub open spec fn spec_imm8(w: u16) -> u8 {
    (w & 0xFF) as u8
}

/// Bits 11-0 of a word.
pub open spec fn spec_addr12(w: u16) -> u16 {
    w & 0xFFF
}

/// Every extracted field is in its range: register indices and the opcode
/// below 16, the jump target below 4096.
pub proof fn lemma_field_bounds(w: u16)
    by (bit_vector)
    ensures
        spec_opcode(w) < 16,
        spec_rd(w) < 16,
        spec_rs(w) < 16,
        spec_rt(w) < 16,
        spec_imm8(w) < 256,
        spec_addr12(w) < 4096,
{
}

/// The format class and mnemonic of a word, in the fixed precedence order:
/// the all-zero and all-one words first, then the extended family under top
/// nibble 0xF, then the opcode table.
pub open spec fn spec_classify(w: u16) -> (InstructionFormat, Seq<char>) {
    if w == 0x0000 {
        (InstructionFormat::Special, "NOP"@)
    } else if w == 0xFFFF {
        (InstructionFormat::Special, "HALT"@)
    } else if spec_opcode(w) == 0xF {
        let ext = (w >> 4) & 0xFF;
        if ext == 0xF0 {
            (InstructionFormat::Extended, "CALL"@)
        } else if ext == 0xF1 {
            (InstructionFormat::Extended, "RET"@)
        } else if ext == 0xF2 {
            (InstructionFormat::Extended, "PUSH"@)
        } else if ext == 0xF3 {
            (InstructionFormat::Extended, "POP"@)
        } else {
            (InstructionFormat::BType, "BNE"@)
        }
    } else if spec_opcode(w) == 0x0 {
        (InstructionFormat::Special, "NOP"@)
    } else if spec_opcode(w) == 0x1 {
        (InstructionFormat::RType, "ADD"@)
    } else if spec_opcode(w) == 0x2 {
        (InstructionFormat::IType, "ADDI"@)
    } else if spec_opcode(w) == 0x3 {
        (InstructionFormat::RType, "SUB"@)
    } else if spec_opcode(w) == 0x4 {
        (InstructionFormat::RType, "AND"@)
    } else if spec_opcode(w) == 0x5 {
        (InstructionFormat::RType, "OR"@)
    } else if spec_opcode(w) == 0x6 {
        (InstructionFormat::RType, "XOR"@)
    } else if spec_opcode(w) == 0x7 {
        (InstructionFormat::RType, "NOT"@)
    } else if spec_opcode(w) == 0x8 {
        (InstructionFormat::RType, "SHL"@)
    } else if spec_opcode(w) == 0x9 {
        (InstructionFormat::RType, "SHR"@)
    } else if spec_opcode(w) == 0xA {
        (InstructionFormat::MType, "LOAD"@)
    } else if spec_opcode(w) == 0xB {
        (InstructionFormat::MType, "STORE"@)
    } else if spec_opcode(w) == 0xC {
        (InstructionFormat::IType, "LOADI"@)
    } else if spec_opcode(w) == 0xD {
        (InstructionFormat::JType, "JMP"@)
    } else if spec_opcode(w) == 0xE {
        (InstructionFormat::BType, "BEQ"@)
    } else {
        (InstructionFormat::Special, "UNKNOWN"@)
    }
}

/// The decoder; a stateless classifier.
pub struct InstructionDecoder;

impl InstructionDecoder {
    /// Decode a 16-bit instruction word. Total, deterministic: every field
    /// of the result is a pure function of the word.
    pub fn decode(instruction: u16) -> (d: DecodedInstruction)
        ensures
            d.format == spec_classify(instruction).0,
            d.mnemonic@ == spec_classify(instruction).1,
            d.opcode == spec_opcode(instruction),
            d.rd == spec_rd(instruction),
            d.rs == spec_rs(instruction),
            d.rt == spec_rt(instruction),
            d.imm8 == spec_imm8(instruction),
            d.offset == spec_rt(instruction),
            d.addr12 == spec_addr12(instruction),
    {
        let opcode = ((instruction >> 12) & 0xF) as u8;
        let rd = ((instruction >> 8) & 0xF) as u8;
        let rs = ((instruction >> 4) & 0xF) as u8;
        let rt = (instruction & 0xF) as u8;
        let imm8 = (instruction & 0xFF) as u8;
        let offset = (instruction & 0xF) as u8;
        let addr12 = instruction & 0xFFF;

        let (format, mnemonic) = Self::classify_instruction(instruction, opcode);

        DecodedInstruction { format, opcode, rd, rs, rt, imm8, offset, addr12, mnemonic }
    }

    fn classify_instruction(instruction: u16, opcode: u8) -> (r: (InstructionFormat, &'static str))
        requires
            opcode == spec_opcode(instruction),
        ensures
            r.0 == spec_classify(instruction).0,
            r.1@ == spec_classify(instruction).1,
    {
        // Special cases first
        if instruction == 0x0000 {
            return (InstructionFormat::Special, "NOP");
        }
        if instruction == 0xFFFF {
            return (InstructionFormat::Special, "HALT");
        }
        // The extended family under top nibble 0xF, selected by bits 11-4
        if opcode == 0xF {
            let extended_op = (instruction >> 4) & 0xFF;
            return match extended_op {
                0xF0 => (InstructionFormat::Extended, "CALL"),
                0xF1 => (InstructionFormat::Extended, "RET"),
                0xF2 => (InstructionFormat::Extended, "PUSH"),
                0xF3 => (InstructionFormat::Extended, "POP"),
                _ => (InstructionFormat::BType, "BNE"),
            };
        }
        // Standard opcode table
        match opcode {
            0x0 => (InstructionFormat::Special, "NOP"),
            0x1 => (InstructionFormat::RType, "ADD"),
            0x2 => (InstructionFormat::IType, "ADDI"),
            0x3 => (InstructionFormat::RType, "SUB"),
            0x4 => (InstructionFormat::RType, "AND"),
            0x5 => (InstructionFormat::RType, "OR"),
            0x6 => (InstructionFormat::RType, "XOR"),
            0x7 => (InstructionFormat::RType, "NOT"),
            0x8 => (InstructionFormat::RType, "SHL"),
            0x9 => (InstructionFormat::RType, "SHR"),
            0xA => (InstructionFormat::MType, "LOAD"),
            0xB => (InstructionFormat::MType, "STORE"),
            0xC => (InstructionFormat::IType, "LOADI"),
            0xD => (InstructionFormat::JType, "JMP"),
            0xE => (InstructionFormat::BType, "BEQ"),
            _ => (InstructionFormat::Special, "UNKNOWN"),
        }
    }
}

/// The signed rendering of a branch displacement byte: the byte is read as
/// a signed 8-bit value and written in decimal.
pub open spec fn spec_signed_dec(imm8: u8) -> Seq<char> {
    if imm8 >= 128 {
        seq!['-'] + dec_digits((256 - imm8) as nat)
    } else {
        dec_digits(imm8 as nat)
    }
}

/// The operand rendering shared by the formatter's specifications: mnemonic
/// followed by the operands the format reads.
pub open spec fn spec_render(
    format: InstructionFormat,
    mnemonic: Seq<char>,
    opcode: u8,
    rd: u8,
    rs: u8,
    rt: u8,
    imm8: u8,
    offset: u8,
    addr12: u16,
) -> Seq<char> {
    match format {
        InstructionFormat::RType => {
            if opcode == 0x7 {
                mnemonic + " R"@ + seq![hex_digit(rd as int)] + ", R"@ + seq![
                    hex_digit(rs as int),
                ]
            } else {
                mnemonic + " R"@ + seq![hex_digit(rd as int)] + ", R"@ + seq![
                    hex_digit(rs as int),
                ] + ", R"@ + seq![hex_digit(rt as int)]
            }
        },
        InstructionFormat::IType => mnemonic + " R"@ + seq![hex_digit(rd as int)] + ", 0x"@ + hex2(
            imm8,
        ),
        InstructionFormat::MType => mnemonic + " R"@ + seq![hex_digit(rd as int)] + ", R"@ + seq![
            hex_digit(rs as int),
        ] + ", 0x"@ + seq![hex_digit(offset as int)],
        InstructionFormat::JType => mnemonic + " 0x"@ + hex3(addr12),
        InstructionFormat::BType => mnemonic + " R"@ + seq![hex_digit(rd as int)] + ", "@
            + spec_signed_dec(imm8),
        InstructionFormat::Extended => mnemonic,
        InstructionFormat::Special => mnemonic,
    }
}

/// The operand rendering of a decoded instruction.
pub open spec fn spec_format_instruction(d: DecodedInstruction) -> Seq<char> {
    spec_render(d.format, d.mnemonic@, d.opcode, d.rd, d.rs, d.rt, d.imm8, d.offset, d.addr12)
}

/// The operand rendering of a raw word: what formatting its decoding gives.
pub open spec fn spec_render_word(w: u16) -> Seq<char> {
    spec_render(
        spec_classify(w).0,
        spec_classify(w).1,
        spec_opcode(w),
        spec_rd(w),
        spec_rs(w),
        spec_rt(w),
        spec_imm8(w),
        spec_rt(w),
        spec_addr12(w),
    )
}

/// One disassembly line: address and word as four hex digits each, then the
/// rendered instruction.
pub open spec fn spec_disassemble(address: u16, instruction: u16) -> Seq<char> {
    hex4(address) + ": "@ + hex4(instruction) + "  "@ + spec_render_word(instruction)
}

impl InstructionDecoder {
    /// Render a decoded instruction as its mnemonic and operand text.
    pub fn format_instruction(decoded: &DecodedInstruction) -> (r: String)
        requires
            decoded.rd < 16,
            decoded.rs < 16,
            decoded.rt < 16,
            decoded.offset < 16,
            decoded.addr12 < 4096,
        ensures
            r@ == spec_format_instruction(*decoded),
    {
        let mut s = String::new();
        s.append(decoded.mnemonic);
        match decoded.format {
            InstructionFormat::RType => {
                s.append(" R");
                push_hex_digit(&mut s, decoded.rd as u16);
                s.append(", R");
                push_hex_digit(&mut s, decoded.rs as u16);
                if decoded.opcode != 0x7 {
                    s.append(", R");
                    push_hex_digit(&mut s, decoded.rt as u16);
                }
            },
            InstructionFormat::IType => {
                s.append(" R");
                push_hex_digit(&mut s, decoded.rd as u16);
                s.append(", 0x");
                push_hex2(&mut s, decoded.imm8);
            },
            InstructionFormat::MType => {
                s.append(" R");
                push_hex_digit(&mut s, decoded.rd as u16);
                s.append(", R");
                push_hex_digit(&mut s, decoded.rs as u16);
                s.append(", 0x");
                push_hex_digit(&mut s, decoded.offset as u16);
            },
            InstructionFormat::JType => {
                s.append(" 0x");
                push_hex3(&mut s, decoded.addr12);
            },
            InstructionFormat::BType => {
                s.append(" R");
                push_hex_digit(&mut s, decoded.rd as u16);
                s.append(", ");
                if decoded.imm8 >= 128 {
                    push_char(&mut s, '-');
                    push_dec(&mut s, 256 - decoded.imm8 as u64);
                } else {
                    push_dec(&mut s, decoded.imm8 as u64);
                }
            },
            InstructionFormat::Extended => {},
            InstructionFormat::Special => {},
        }
        proof {
            assert(s@ =~= spec_format_instruction(*decoded));
        }
        s
    }

    /// Disassemble a word at an address into one line of text.
    pub fn disassemble(address: u16, instruction: u16) -> (r: String)
        ensures
            r@ == spec_disassemble(address, instruction),
    {
        let decoded = Self::decode(instruction);
        proof {
            lemma_field_bounds(instruction);
        }
        let mut s = String::new();
        push_hex4(&mut s, address);
        s.append(": ");
        push_hex4(&mut s, instruction);
        s.append("  ");
        let body = Self::format_instruction(&decoded);
        s.append(body.as_str());
        proof {
            assert(s@ =~= hex4(address) + ": "@ + hex4(instruction) + "  "@
                + spec_format_instruction(decoded));
        }
        s
    }
}

} // verus!

