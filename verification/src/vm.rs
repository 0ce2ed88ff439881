//! The execution engine: a 64 KiB byte-addressable memory, the register
//! bank, and the fetch-decode-execute cycle.
//!
//! Every step is specified against a pure model of the machine state: the
//! step function's postcondition pins the whole next state as a function of
//! the current one, and the run loop is specified as the iteration of that
//! model up to the cycle budget or the halt flag.

use vstd::prelude::*;
use vstd::string::{StrSliceExecFns, StringExecFns};
use crate::decoder::{InstructionDecoder, lemma_field_bounds, spec_imm8, spec_opcode, spec_rd,
    spec_rs, spec_rt};
pub use crate::flags::StatusFlags;
use crate::flags::spec_flag_bits;
use crate::text::{bool_bit, dec_digits, hex4, hex_digit, push_bool_bit, push_dec, push_hex4,
    push_hex_digit};

verus! {

/// The number of bytes of memory; addresses are 16-bit so every byte is
/// addressable.
pub const MEMORY_SIZE: usize = 65536;

/// The pure model of a machine state, the subject of the engine's
/// specifications.
pub struct VmState {
    /// The 16 general-purpose registers.
    pub regs: Seq<u16>,
    /// Program counter.
    pub pc: u16,
    /// Stack pointer.
    pub sp: u16,
    /// Link register.
    pub lr: u16,
    /// Condition flags of the status register.
    pub sr: StatusFlags,
    /// The flat byte memory.
    pub mem: Seq<u8>,
    /// Whether a HALT has been executed.
    pub halted: bool,
    /// Instructions executed so far.
    pub cycle_count: u64,
}

impl VmState {
    /// The shape every reachable machine state has: 16 registers and a full
    /// memory.
    pub open spec fn wf(self) -> bool {
        &&& self.regs.len() == 16
        &&& self.mem.len() == MEMORY_SIZE
    }
}

/// The little-endian word at a byte address, both bytes being in bounds.
pub open spec fn word_at(mem: Seq<u8>, addr: int) -> u16 {
    (mem[addr] + 256 * mem[addr + 1]) as u16
}

/// A 16-bit memory read: the little-endian word at the address, or 0 when
/// the second byte would fall outside memory.
pub open spec fn spec_read_word(mem: Seq<u8>, addr: u16) -> u16 {
    if addr as int + 1 >= mem.len() {
        0
    } else {
        word_at(mem, addr as int)
    }
}

/// A 16-bit memory write: stores the word little-endian, or leaves memory
/// unchanged when the second byte would fall outside it.
pub open spec fn spec_write_word(mem: Seq<u8>, addr: u16, value: u16) -> Seq<u8> {
    if addr as int + 1 >= mem.len() {
        mem
    } else {
        mem.update(addr as int, (value % 256) as u8).update(addr as int + 1, (value / 256) as u8)
    }
}

/// The word a fetch at the current program counter returns: the HALT
/// encoding when the fetch would cross the memory bound, the stored word
/// otherwise.
pub open spec fn spec_fetch_word(s: VmState) -> u16 {
    if s.pc as int + 1 >= s.mem.len() {
        0xFFFF
    } else {
        word_at(s.mem, s.pc as int)
    }
}

/// The program counter after a fetch: advanced by 2 (wrapping) on an
/// in-bounds fetch, unchanged on an out-of-bounds one.
pub open spec fn spec_fetch_pc(s: VmState) -> u16 {
    if s.pc as int + 1 >= s.mem.len() {
        s.pc
    } else {
        vstd::wrapping::u16_specs::wrapping_add(s.pc, 2)
    }
}

/// A register bank after an instruction writes its destination: the result
/// goes to rd, then register 0 is forced back to 0.
pub open spec fn upd_reg(regs: Seq<u16>, rd: u8, value: u16) -> Seq<u16> {
    regs.update(rd as int, value).update(0, 0u16)
}

/// Flags after an operation that sets zero and negative only: carry and
/// overflow are left untouched.
pub open spec fn flags_zn(f: StatusFlags, result: u16) -> StatusFlags {
    StatusFlags {
        zero: result == 0,
        negative: (result & 0x8000) != 0,
        carry: f.carry,
        overflow: f.overflow,
    }
}

/// Flags after a widened addition: zero and negative from the low 16 bits,
/// carry from the widened sum; overflow is left untouched.
pub open spec fn flags_znc(f: StatusFlags, sum: int) -> StatusFlags {
    let result = (sum % 65536) as u16;
    StatusFlags {
        zero: result == 0,
        negative: (result & 0x8000) != 0,
        carry: sum > 0xFFFF,
        overflow: f.overflow,
    }
}

/// ADD: the widened sum of rs and rt, truncated into rd; zero, negative and
/// carry updated.
pub open spec fn add_model(s: VmState, rd: u8, rs: u8, rt: u8) -> VmState {
    let sum = s.regs[rs as int] + s.regs[rt as int];
    VmState { regs: upd_reg(s.regs, rd, (sum % 65536) as u16), sr: flags_znc(s.sr, sum), ..s }
}

/// ADDI: the widened sum of rd (as accumulator) and the zero-extended
/// immediate, truncated into rd; zero, negative and carry updated.
pub open spec fn addi_model(s: VmState, rd: u8, imm8: u8) -> VmState {
    let sum = s.regs[rd as int] + imm8;
    VmState { regs: upd_reg(s.regs, rd, (sum % 65536) as u16), sr: flags_znc(s.sr, sum), ..s }
}

/// SUB: wrapping 16-bit subtraction rs - rt into rd; zero and negative
/// only.
pub open spec fn sub_model(s: VmState, rd: u8, rs: u8, rt: u8) -> VmState {
    let result = vstd::wrapping::u16_specs::wrapping_sub(s.regs[rs as int], s.regs[rt as int]);
    VmState { regs: upd_reg(s.regs, rd, result), sr: flags_zn(s.sr, result), ..s }
}

/// AND, OR, XOR: the bitwise result into rd; zero and negative only.
pub open spec fn bitop_model(s: VmState, rd: u8, result: u16) -> VmState {
    VmState { regs: upd_reg(s.regs, rd, result), sr: flags_zn(s.sr, result), ..s }
}

/// SHL and SHR: logical shift of rs by the low nibble of rt, into rd; zero
/// and negative only.
pub open spec fn shl_model(s: VmState, rd: u8, rs: u8, rt: u8) -> VmState {
    bitop_model(s, rd, s.regs[rs as int] << (s.regs[rt as int] & 0xF))
}

/// See shl_model.
pub open spec fn shr_model(s: VmState, rd: u8, rs: u8, rt: u8) -> VmState {
    bitop_model(s, rd, s.regs[rs as int] >> (s.regs[rt as int] & 0xF))
}

/// The effective address of a memory instruction: the base register plus
/// the word-counting offset doubled, wrapping.
pub open spec fn effective_addr(s: VmState, rs: u8, offset: u8) -> u16 {
    vstd::wrapping::u16_specs::wrapping_add(s.regs[rs as int], (offset * 2) as u16)
}

/// LOAD: the word at the effective address into rd; flags untouched.
pub open spec fn load_model(s: VmState, rd: u8, rs: u8, offset: u8) -> VmState {
    VmState {
        regs: upd_reg(s.regs, rd, spec_read_word(s.mem, effective_addr(s, rs, offset))),
        ..s
    }
}

/// STORE: rd's value to the word at the effective address; flags untouched.
pub open spec fn store_model(s: VmState, rd: u8, rs: u8, offset: u8) -> VmState {
    VmState { mem: spec_write_word(s.mem, effective_addr(s, rs, offset), s.regs[rd as int]), ..s }
}

/// The sign extension of an 8-bit immediate to 16 bits.
pub open spec fn sign_extend8(imm8: u8) -> u16 {
    if imm8 >= 128 {
        (imm8 + 0xFF00) as u16
    } else {
        imm8 as u16
    }
}

/// LOADI: the sign-extended immediate into rd; no flag update.
pub open spec fn loadi_model(s: VmState, rd: u8, imm8: u8) -> VmState {
    VmState { regs: upd_reg(s.regs, rd, sign_extend8(imm8)), ..s }
}

/// A branch displacement: the immediate read as signed, doubled, as a
/// wrapping 16-bit addend.
pub open spec fn branch_disp(imm8: u8) -> u16 {
    if imm8 >= 128 {
        (2 * imm8 + 65024) as u16
    } else {
        (2 * imm8) as u16
    }
}

/// BEQ and BNE: when the condition register compares to zero as required,
/// the displacement is added (wrapping) to the already-advanced program
/// counter.
pub open spec fn branch_model(s: VmState, rd: u8, imm8: u8, taken_on_zero: bool) -> VmState {
    let taken = (s.regs[rd as int] == 0) == taken_on_zero;
    if taken {
        VmState { pc: vstd::wrapping::u16_specs::wrapping_add(s.pc, branch_disp(imm8)), ..s }
    } else {
        s
    }
}

/// The instructions under top nibble 0xF: the all-ones word halts, the
/// extended family (CALL/RET/PUSH/POP) is a recognized no-op, everything
/// else is BNE.
pub open spec fn bne_or_extended_model(s: VmState, w: u16) -> VmState {
    if w == 0xFFFF {
        VmState { halted: true, ..s }
    } else if 0xF0 <= ((w >> 4) & 0xFF) && ((w >> 4) & 0xFF) <= 0xF3 {
        s
    } else {
        branch_model(s, spec_rd(w), spec_imm8(w), false)
    }
}

/// The effect of executing one already-fetched word on the post-fetch
/// state.
pub open spec fn exec_model(s: VmState, w: u16) -> VmState {
    let op = spec_opcode(w);
    if op == 0x0 {
        s
    } else if op == 0x1 {
        add_model(s, spec_rd(w), spec_rs(w), spec_rt(w))
    } else if op == 0x2 {
        addi_model(s, spec_rd(w), spec_imm8(w))
    } else if op == 0x3 {
        sub_model(s, spec_rd(w), spec_rs(w), spec_rt(w))
    } else if op == 0x4 {
        bitop_model(s, spec_rd(w), s.regs[spec_rs(w) as int] & s.regs[spec_rt(w) as int])
    } else if op == 0x5 {
        bitop_model(s, spec_rd(w), s.regs[spec_rs(w) as int] | s.regs[spec_rt(w) as int])
    } else if op == 0x6 {
        bitop_model(s, spec_rd(w), s.regs[spec_rs(w) as int] ^ s.regs[spec_rt(w) as int])
    } else if op == 0x7 {
        bitop_model(s, spec_rd(w), !s.regs[spec_rs(w) as int])
    } else if op == 0x8 {
        shl_model(s, spec_rd(w), spec_rs(w), spec_rt(w))
    } else if op == 0x9 {
        shr_model(s, spec_rd(w), spec_rs(w), spec_rt(w))
    } else if op == 0xA {
        load_model(s, spec_rd(w), spec_rs(w), spec_rt(w))
    } else if op == 0xB {
        store_model(s, spec_rd(w), spec_rs(w), spec_rt(w))
    } else if op == 0xC {
        loadi_model(s, spec_rd(w), spec_imm8(w))
    } else if op == 0xD {
        VmState { pc: w & 0xFFF, ..s }
    } else if op == 0xE {
        branch_model(s, spec_rd(w), spec_imm8(w), true)
    } else {
        bne_or_extended_model(s, w)
    }
}

/// One full fetch-decode-execute step on a non-halted machine: fetch the
/// word at PC (advancing it), count the cycle, then apply the word's
/// effect.
pub open spec fn step_model(s: VmState) -> VmState {
    let w = spec_fetch_word(s);
    let s1 = VmState { pc: spec_fetch_pc(s), cycle_count: (s.cycle_count + 1) as u64, ..s };
    exec_model(s1, w)
}

/// Stepping repeatedly until the machine halts or the cycle budget runs
/// out.
pub open spec fn run_model(s: VmState, budget: u64) -> VmState
    decreases budget,
{
    if s.halted || budget == 0 {
        s
    } else {
        run_model(step_model(s), (budget - 1) as u64)
    }
}

/// The virtual machine: registers, memory, and execution state.
pub struct CVEREVM {
    /// General-purpose registers R0-RF.
    pub registers: [u16; 16],
    /// Program counter.
    pub pc: u16,
    /// Stack pointer.
    pub sp: u16,
    /// Link register.
    pub lr: u16,
    /// Status register.
    pub sr: StatusFlags,
    /// 64 KiB of byte-addressable memory.
    pub memory: Vec<u8>,
    /// Whether a HALT has been executed.
    pub halted: bool,
    /// Instructions executed so far.
    pub cycle_count: u64,
}

impl View for CVEREVM {
    type V = VmState;

    open spec fn view(&self) -> VmState {
        VmState {
            regs: self.registers@,
            pc: self.pc,
            sp: self.sp,
            lr: self.lr,
            sr: self.sr,
            mem: self.memory@,
            halted: self.halted,
            cycle_count: self.cycle_count,
        }
    }
}

/// A program image after loading: words stored little-endian from the start
/// address onward; a word whose second byte would cross the memory bound is
/// dropped, along with everything after it.
pub open spec fn spec_load_program(mem: Seq<u8>, words: Seq<u16>, addr: int) -> Seq<u8>
    decreases words.len(),
{
    if words.len() == 0 {
        mem
    } else if addr + 1 < mem.len() {
        spec_load_program(
            mem.update(addr, (words[0] % 256) as u8).update(addr + 1, (words[0] / 256) as u8),
            words.skip(1),
            addr + 2,
        )
    } else {
        mem
    }
}

impl CVEREVM {
    /// A fresh machine: zeroed registers, zeroed memory, PC at 0, the stack
    /// pointer at the top of memory, not halted, no cycles counted.
    pub fn new() -> (r: CVEREVM)
        ensures
            r@.wf(),
            r@.regs == Seq::new(16, |i: int| 0u16),
            r@.mem == Seq::new(MEMORY_SIZE as nat, |i: int| 0u8),
            r@.pc == 0,
            r@.sp == 0xFFFE,
            r@.lr == 0,
            r@.sr == (StatusFlags { zero: false, negative: false, carry: false, overflow: false }),
            r@.halted == false,
            r@.cycle_count == 0,
    {
        let mut memory: Vec<u8> = Vec::new();
        let mut i: usize = 0;
        while i < MEMORY_SIZE
            invariant
                i <= MEMORY_SIZE,
                memory@ =~= Seq::new(i as nat, |j: int| 0u8),
            decreases MEMORY_SIZE - i,
        {
            memory.push(0);
            i = i + 1;
        }
        let r = CVEREVM {
            registers: [0; 16],
            pc: 0,
            sp: 0xFFFE,  // stack grows downward from the top of memory
            lr: 0,
            sr: StatusFlags::new(),
            memory,
            halted: false,
            cycle_count: 0,
        };
        proof {
            assert(r@.regs =~= Seq::new(16, |i: int| 0u16));
        }
        r
    }

    /// Load a program into memory: its words are written little-endian from
    /// the start address; loading silently truncates at the memory bound.
    pub fn load_program(&mut self, program: &[u16], start_address: u16)
        requires
            old(self)@.wf(),
        ensures
            final(self)@ == (VmState {
                mem: spec_load_program(old(self)@.mem, program@, start_address as int),
                ..old(self)@
            }),
            final(self)@.wf(),
    {
        let ghost mem0 = self.memory@;
        proof {
            assert(program@.skip(0) =~= program@);
        }
        let mut addr: usize = start_address as usize;
        let mut j: usize = 0;
        while j < program.len()
            invariant
                self@.wf(),
                j <= program@.len(),
                addr <= MEMORY_SIZE + 1,
                self@ == (VmState { mem: self.memory@, ..old(self)@ }),
                spec_load_program(mem0, program@, start_address as int) == spec_load_program(
                    self.memory@,
                    program@.skip(j as int),
                    addr as int,
                ),
            decreases program@.len() - j,
        {
            let instruction = program[j];
            if addr + 1 < self.memory.len() {
                // Little-endian storage
                self.memory[addr] = (instruction % 256) as u8;
                self.memory[addr + 1] = (instruction / 256) as u8;
                addr = addr + 2;
            }
            j = j + 1;
            proof {
                assert(program@.skip(j - 1).skip(1) =~= program@.skip(j as int));
            }
        }
        proof {
            assert(program@.skip(program@.len() as int) =~= Seq::<u16>::empty());
        }
    }

    /// Fetch the word at PC, little-endian, and advance PC by 2; a fetch
    /// that would cross the memory bound returns the HALT encoding and
    /// leaves PC where it was.
    fn fetch(&mut self) -> (w: u16)
        requires
            old(self)@.wf(),
        ensures
            w == spec_fetch_word(old(self)@),
            final(self)@ == (VmState { pc: spec_fetch_pc(old(self)@), ..old(self)@ }),
            final(self)@.wf(),
    {
        let addr = self.pc as usize;
        if addr + 1 >= self.memory.len() {
            return 0xFFFF;  // halt at the memory boundary
        }
        // Little-endian fetch
        let low = self.memory[addr] as u16;
        let high = self.memory[addr + 1] as u16;
        self.pc = self.pc.wrapping_add(2);
        low + 256 * high
    }

    /// Read the little-endian word at an address; 0 when the second byte
    /// would be out of bounds.
    fn read_memory(&self, address: u16) -> (w: u16)
        requires
            self@.wf(),
        ensures
            w == spec_read_word(self@.mem, address),
    {
        let addr = address as usize;
        if addr + 1 >= self.memory.len() {
            return 0;
        }
        let low = self.memory[addr] as u16;
        let high = self.memory[addr + 1] as u16;
        low + 256 * high
    }

    /// Write a word little-endian at an address; a no-op when the second
    /// byte would be out of bounds.
    fn write_memory(&mut self, address: u16, value: u16)
        requires
            old(self)@.wf(),
        ensures
            final(self)@ == (VmState {
                mem: spec_write_word(old(self)@.mem, address, value),
                ..old(self)@
            }),
            final(self)@.wf(),
    {
        let addr = address as usize;
        if addr + 1 < self.memory.len() {
            self.memory[addr] = (value % 256) as u8;
            self.memory[addr + 1] = (value / 256) as u8;
        }
    }

    /// Set zero and negative from a result, leaving carry and overflow.
    fn update_flags(&mut self, result: u16)
        ensures
            final(self)@ == (VmState { sr: flags_zn(old(self)@.sr, result), ..old(self)@ }),
    {
        self.sr.zero = result == 0;
        self.sr.negative = (result & 0x8000) != 0;
    }

    /// Set zero and negative from the low 16 bits of a widened sum and
    /// carry from its 17th bit, leaving overflow.
    fn update_flags_with_carry(&mut self, sum: u32)
        requires
            sum < 0x20000,
        ensures
            final(self)@ == (VmState { sr: flags_znc(old(self)@.sr, sum as int), ..old(self)@ }),
    {
        let result_16 = (sum % 65536) as u16;
        self.sr.zero = result_16 == 0;
        self.sr.negative = (result_16 & 0x8000) != 0;
        self.sr.carry = sum > 0xFFFF;
    }

    /// Execute one instruction. Fails exactly when the machine has already
    /// halted; otherwise the machine advances to the state the step model
    /// gives.
    pub fn step(&mut self) -> (r: Result<(), String>)
        requires
            old(self)@.wf(),
            old(self).cycle_count < u64::MAX,
        ensures
            final(self)@.wf(),
            old(self).halted ==> r is Err && *final(self) == *old(self) && r->Err_0@
                == "VM is halted"@,
            !old(self).halted ==> r is Ok && final(self)@ == step_model(old(self)@),
    {
        if self.halted {
            return Err(String::from_str("VM is halted"));
        }
        let instruction = self.fetch();
        self.cycle_count = self.cycle_count + 1;

        let d = InstructionDecoder::decode(instruction);
        proof {
            lemma_field_bounds(instruction);
        }
        match d.opcode {
            0x0 => {},
            0x1 => self.exec_add(d.rd, d.rs, d.rt),
            0x2 => self.exec_addi(d.rd, d.imm8),
            0x3 => self.exec_sub(d.rd, d.rs, d.rt),
            0x4 => self.exec_and(d.rd, d.rs, d.rt),
            0x5 => self.exec_or(d.rd, d.rs, d.rt),
            0x6 => self.exec_xor(d.rd, d.rs, d.rt),
            0x7 => self.exec_not(d.rd, d.rs),
            0x8 => self.exec_shl(d.rd, d.rs, d.rt),
            0x9 => self.exec_shr(d.rd, d.rs, d.rt),
            0xA => self.exec_load(d.rd, d.rs, d.offset),
            0xB => self.exec_store(d.rd, d.rs, d.offset),
            0xC => self.exec_loadi(d.rd, d.imm8),
            0xD => self.exec_jmp(d.addr12),
            0xE => self.exec_beq(d.rd, d.imm8),
            0xF => self.exec_bne_or_extended(instruction),
            _ => {
                // The opcode is a nibble; this arm is unreachable, kept as
                // the defensive error path.
                return Err(String::from_str("invalid opcode"));
            },
        }
        Ok(())
    }

    /// Run until halted or the cycle budget is exhausted, returning the
    /// number of cycles consumed. Never fails: the loop stops at the halt
    /// flag before stepping a halted machine.
    pub fn run(&mut self, max_cycles: u64) -> (r: Result<u64, String>)
        requires
            old(self)@.wf(),
            old(self).cycle_count + max_cycles <= u64::MAX,
        ensures
            final(self)@.wf(),
            r is Ok,
            final(self)@ == run_model(old(self)@, max_cycles),
            r->Ok_0 == final(self).cycle_count - old(self).cycle_count,
    {
        let start_cycle = self.cycle_count;
        while !self.halted && (self.cycle_count - start_cycle) < max_cycles
            invariant
                self@.wf(),
                start_cycle == old(self).cycle_count,
                start_cycle <= self.cycle_count,
                self.cycle_count - start_cycle <= max_cycles,
                start_cycle + max_cycles <= u64::MAX,
                run_model(old(self)@, max_cycles) == run_model(
                    self@,
                    (max_cycles - (self.cycle_count - start_cycle)) as u64,
                ),
            decreases max_cycles - (self.cycle_count - start_cycle),
        {
            let ghost pre = self@;
            let res = self.step();
            proof {
                assert(self@ == step_model(pre));
                assert(self.cycle_count == pre.cycle_count + 1);
            }
            if let Err(e) = res {
                return Err(e);
            }
        }
        Ok(self.cycle_count - start_cycle)
    }

    // Instruction implementations. Each advances the post-fetch state by
    // exactly what its model gives.

    fn exec_add(&mut self, rd: u8, rs: u8, rt: u8)
        requires
            old(self)@.wf(),
            rd < 16,
            rs < 16,
            rt < 16,
        ensures
            final(self)@ == add_model(old(self)@, rd, rs, rt),
            final(self)@.wf(),
    {
        let sum = self.registers[rs as usize] as u32 + self.registers[rt as usize] as u32;
        self.registers[rd as usize] = (sum % 65536) as u16;
        // R0 always reads as 0
        self.registers[0] = 0;
        self.update_flags_with_carry(sum);
    }

    fn exec_addi(&mut self, rd: u8, imm8: u8)
        requires
            old(self)@.wf(),
            rd < 16,
        ensures
            final(self)@ == addi_model(old(self)@, rd, imm8),
            final(self)@.wf(),
    {
        let sum = self.registers[rd as usize] as u32 + imm8 as u32;
        self.registers[rd as usize] = (sum % 65536) as u16;
        self.registers[0] = 0;
        self.update_flags_with_carry(sum);
    }

    fn exec_sub(&mut self, rd: u8, rs: u8, rt: u8)
        requires
            old(self)@.wf(),
            rd < 16,
            rs < 16,
            rt < 16,
        ensures
            final(self)@ == sub_model(old(self)@, rd, rs, rt),
            final(self)@.wf(),
    {
        let result = self.registers[rs as usize].wrapping_sub(self.registers[rt as usize]);
        self.registers[rd as usize] = result;
        self.registers[0] = 0;
        self.update_flags(result);
    }

    fn exec_and(&mut self, rd: u8, rs: u8, rt: u8)
        requires
            old(self)@.wf(),
            rd < 16,
            rs < 16,
            rt < 16,
        ensures
            final(self)@ == bitop_model(
                old(self)@,
                rd,
                old(self)@.regs[rs as int] & old(self)@.regs[rt as int],
            ),
            final(self)@.wf(),
    {
        let result = self.registers[rs as usize] & self.registers[rt as usize];
        self.registers[rd as usize] = result;
        self.registers[0] = 0;
        self.update_flags(result);
    }

    fn exec_or(&mut self, rd: u8, rs: u8, rt: u8)
        requires
            old(self)@.wf(),
            rd < 16,
            rs < 16,
            rt < 16,
        ensures
            final(self)@ == bitop_model(
                old(self)@,
                rd,
                old(self)@.regs[rs as int] | old(self)@.regs[rt as int],
            ),
            final(self)@.wf(),
    {
        let result = self.registers[rs as usize] | self.registers[rt as usize];
        self.registers[rd as usize] = result;
        self.registers[0] = 0;
        self.update_flags(result);
    }

    fn exec_xor(&mut self, rd: u8, rs: u8, rt: u8)
        requires
            old(self)@.wf(),
            rd < 16,
            rs < 16,
            rt < 16,
        ensures
            final(self)@ == bitop_model(
                old(self)@,
                rd,
                old(self)@.regs[rs as int] ^ old(self)@.regs[rt as int],
            ),
            final(self)@.wf(),
    {
        let result = self.registers[rs as usize] ^ self.registers[rt as usize];
        self.registers[rd as usize] = result;
        self.registers[0] = 0;
        self.update_flags(result);
    }

    fn exec_not(&mut self, rd: u8, rs: u8)
        requires
            old(self)@.wf(),
            rd < 16,
            rs < 16,
        ensures
            final(self)@ == bitop_model(old(self)@, rd, !old(self)@.regs[rs as int]),
            final(self)@.wf(),
    {
        let result = !self.registers[rs as usize];
        self.registers[rd as usize] = result;
        self.registers[0] = 0;
        self.update_flags(result);
    }

    fn exec_shl(&mut self, rd: u8, rs: u8, rt: u8)
        requires
            old(self)@.wf(),
            rd < 16,
            rs < 16,
            rt < 16,
        ensures
            final(self)@ == shl_model(old(self)@, rd, rs, rt),
            final(self)@.wf(),
    {
        let rv = self.registers[rt as usize];
        let shift = rv & 0xF;  // clamp to 0-15
        proof {
            assert(shift < 16) by (bit_vector)
                requires
                    shift == rv & 0xF,
            ;
        }
        let result = self.registers[rs as usize] << shift;
        self.registers[rd as usize] = result;
        self.registers[0] = 0;
        self.update_flags(result);
    }

    fn exec_shr(&mut self, rd: u8, rs: u8, rt: u8)
        requires
            old(self)@.wf(),
            rd < 16,
            rs < 16,
            rt < 16,
        ensures
            final(self)@ == shr_model(old(self)@, rd, rs, rt),
            final(self)@.wf(),
    {
        let rv = self.registers[rt as usize];
        let shift = rv & 0xF;
        proof {
            assert(shift < 16) by (bit_vector)
                requires
                    shift == rv & 0xF,
            ;
        }
        let result = self.registers[rs as usize] >> shift;
        self.registers[rd as usize] = result;
        self.registers[0] = 0;
        self.update_flags(result);
    }

    fn exec_load(&mut self, rd: u8, rs: u8, offset: u8)
        requires
            old(self)@.wf(),
            rd < 16,
            rs < 16,
            offset < 16,
        ensures
            final(self)@ == load_model(old(self)@, rd, rs, offset),
            final(self)@.wf(),
    {
        // word-aligned addressing: the offset counts words
        let address = self.registers[rs as usize].wrapping_add(offset as u16 * 2);
        let value = self.read_memory(address);
        self.registers[rd as usize] = value;
        self.registers[0] = 0;
    }

    fn exec_store(&mut self, rd: u8, rs: u8, offset: u8)
        requires
            old(self)@.wf(),
            rd < 16,
            rs < 16,
            offset < 16,
        ensures
            final(self)@ == store_model(old(self)@, rd, rs, offset),
            final(self)@.wf(),
    {
        let address = self.registers[rs as usize].wrapping_add(offset as u16 * 2);
        let value = self.registers[rd as usize];
        self.write_memory(address, value);
    }

    fn exec_loadi(&mut self, rd: u8, imm8: u8)
        requires
            old(self)@.wf(),
            rd < 16,
        ensures
            final(self)@ == loadi_model(old(self)@, rd, imm8),
            final(self)@.wf(),
    {
        // Sign-extend the 8-bit immediate to 16 bits
        let value: u16 = if imm8 >= 128 {
            imm8 as u16 + 0xFF00
        } else {
            imm8 as u16
        };
        self.registers[rd as usize] = value;
        self.registers[0] = 0;
    }

    fn exec_jmp(&mut self, addr12: u16)
        requires
            old(self)@.wf(),
        ensures
            final(self)@ == (VmState { pc: addr12, ..old(self)@ }),
            final(self)@.wf(),
    {
        self.pc = addr12;
    }

    fn exec_beq(&mut self, rd: u8, imm8: u8)
        requires
            old(self)@.wf(),
            rd < 16,
        ensures
            final(self)@ == branch_model(old(self)@, rd, imm8, true),
            final(self)@.wf(),
    {
        if self.registers[rd as usize] == 0 {
            let disp: u16 = if imm8 >= 128 {
                2 * imm8 as u16 + 65024
            } else {
                2 * imm8 as u16
            };
            self.pc = self.pc.wrapping_add(disp);
        }
    }

    fn exec_bne_or_extended(&mut self, instr: u16)
        requires
            old(self)@.wf(),
        ensures
            final(self)@ == bne_or_extended_model(old(self)@, instr),
            final(self)@.wf(),
    {
        // The all-ones word halts
        if instr == 0xFFFF {
            self.halted = true;
            return ;
        }
        // The extended family (bits 11-4) is recognized but executes as a
        // no-op
        let extended_op = (instr >> 4) & 0xFF;
        if 0xF0 <= extended_op && extended_op <= 0xF3 {
            return ;
        }
        // BNE
        proof {
            lemma_field_bounds(instr);
        }
        let rd = ((instr >> 8) & 0xF) as u8;
        let imm8 = (instr & 0xFF) as u8;
        if self.registers[rd as usize] != 0 {
            let disp: u16 = if imm8 >= 128 {
                2 * imm8 as u16 + 65024
            } else {
                2 * imm8 as u16
            };
            self.pc = self.pc.wrapping_add(disp);
        }
    }

    /// Reset to the initial state: zeroed registers, PC at 0, the stack
    /// pointer back at the top of memory, flags clear, not halted, the
    /// cycle counter at 0. Memory is kept.
    pub fn reset(&mut self)
        ensures
            final(self)@ == (VmState {
                regs: Seq::new(16, |i: int| 0u16),
                pc: 0,
                sp: 0xFFFE,
                lr: 0,
                sr: StatusFlags { zero: false, negative: false, carry: false, overflow: false },
                halted: false,
                cycle_count: 0,
                ..old(self)@
            }),
    {
        self.registers = [0; 16];
        self.pc = 0;
        self.sp = 0xFFFE;
        self.lr = 0;
        self.sr = StatusFlags::new();
        self.halted = false;
        self.cycle_count = 0;
        proof {
            assert(self@.regs =~= Seq::new(16, |i: int| 0u16));
        }
    }
}

/// The first n register entries of the state text, four to a line.
pub open spec fn spec_reg_entries(regs: Seq<u16>, n: int) -> Seq<char>
    decreases n,
{
    if n <= 0 {
        Seq::<char>::empty()
    } else {
        spec_reg_entries(regs, n - 1) + "R"@ + seq![hex_digit(n - 1)] + ": 0x"@ + hex4(
            regs[n - 1],
        ) + "  "@ + (if n % 4 == 0 {
            "\n"@
        } else {
            Seq::<char>::empty()
        })
    }
}

/// Fetching at or past the last valid byte address returns the HALT
/// encoding rather than failing, so a step taken there halts the machine
/// gracefully at the memory boundary.
pub proof fn lemma_fetch_at_boundary_halts(s: VmState)
    requires
        s.wf(),
        s.pc as int + 1 >= s.mem.len(),
    ensures
        spec_fetch_word(s) == 0xFFFF,
        step_model(s).halted,
{
    assert((0xFFFFu16 >> 12) & 0xF == 0xF) by (bit_vector);
}

/// The readable rendering of a machine state: the special registers, the
/// flags, the cycle count and halt flag, then the register bank.
pub open spec fn spec_state_text(s: VmState) -> Seq<char> {
    "=== CVERE VM State ===\n"@ + "PC: 0x"@ + hex4(s.pc) + "  SP: 0x"@ + hex4(s.sp) + "  LR: 0x"@
        + hex4(s.lr) + "\n"@ + "SR: Z="@ + seq![bool_bit(s.sr.zero)] + " N="@ + seq![
        bool_bit(s.sr.negative),
    ] + " C="@ + seq![bool_bit(s.sr.carry)] + " V="@ + seq![bool_bit(s.sr.overflow)] + "\n"@
        + "Cycles: "@ + dec_digits(s.cycle_count as nat) + "  Halted: "@ + (if s.halted {
        "true"@
    } else {
        "false"@
    }) + "\n"@ + "\nRegisters:\n"@ + spec_reg_entries(s.regs, 16)
}

impl CVEREVM {
    /// Render the machine state as readable text, for debugging.
    #[verifier::loop_isolation(false)]
    #[verifier::rlimit(60)]
    pub fn state_text(&self) -> (r: String)
        requires
            self@.wf(),
        ensures
            r@ == spec_state_text(self@),
    {
        let mut s = String::new();
        s.append("=== CVERE VM State ===\n");
        s.append("PC: 0x");
        push_hex4(&mut s, self.pc);
        s.append("  SP: 0x");
        push_hex4(&mut s, self.sp);
        s.append("  LR: 0x");
        push_hex4(&mut s, self.lr);
        s.append("\n");
        s.append("SR: Z=");
        push_bool_bit(&mut s, self.sr.zero);
        s.append(" N=");
        push_bool_bit(&mut s, self.sr.negative);
        s.append(" C=");
        push_bool_bit(&mut s, self.sr.carry);
        s.append(" V=");
        push_bool_bit(&mut s, self.sr.overflow);
        s.append("\n");
        s.append("Cycles: ");
        push_dec(&mut s, self.cycle_count);
        s.append("  Halted: ");
        if self.halted {
            s.append("true");
        } else {
            s.append("false");
        }
        s.append("\n");
        s.append("\nRegisters:\n");
        let ghost prefix = s@;
        let mut i: u8 = 0;
        while i < 16
            invariant
                i <= 16,
                s@ == prefix + spec_reg_entries(self@.regs, i as int),
            decreases 16 - i,
        {
            s.append("R");
            push_hex_digit(&mut s, i as u16);
            s.append(": 0x");
            push_hex4(&mut s, self.registers[i as usize]);
            s.append("  ");
            if (i + 1) % 4 == 0 {
                s.append("\n");
            }
            i = i + 1;
            proof {
                assert(s@ =~= prefix + spec_reg_entries(self@.regs, i as int));
            }
        }
        proof {
            assert(s@ =~= spec_state_text(self@));
        }
        s
    }
}

/// What a register lookup by name returns: the special registers under
/// their case-insensitive two-letter names, a general-purpose register
/// under R followed by its hex index, None for every other name and for
/// any index at or above 16.
pub open spec fn spec_get_register(s: VmState, name: Seq<char>) -> Option<u16> {
    if spec_is_name(name, 'P', 'p', 'C', 'c') {
        Some(s.pc)
    } else if spec_is_name(name, 'S', 's', 'P', 'p') {
        Some(s.sp)
    } else if spec_is_name(name, 'L', 'l', 'R', 'r') {
        Some(s.lr)
    } else if spec_is_name(name, 'S', 's', 'R', 'r') {
        Some(spec_flag_bits(s.sr))
    } else if name.len() >= 2 && (name[0] == 'R' || name[0] == 'r') {
        let v = spec_parse_hex(name.skip(1), 0);
        if 0 <= v < 16 {
            Some(s.regs[v])
        } else {
            None
        }
    } else {
        None
    }
}

/// Whether a name is the given two-letter name, in either case per letter.
pub open spec fn spec_is_name(name: Seq<char>, a: char, al: char, b: char, bl: char) -> bool {
    &&& name.len() == 2
    &&& (name[0] == a || name[0] == al)
    &&& (name[1] == b || name[1] == bl)
}

/// The value of a hex digit character, either case; 16 for anything else.
pub open spec fn hex_char_val(c: char) -> int {
    if c == '0' {
        0
    } else if c == '1' {
        1
    } else if c == '2' {
        2
    } else if c == '3' {
        3
    } else if c == '4' {
        4
    } else if c == '5' {
        5
    } else if c == '6' {
        6
    } else if c == '7' {
        7
    } else if c == '8' {
        8
    } else if c == '9' {
        9
    } else if c == 'A' || c == 'a' {
        10
    } else if c == 'B' || c == 'b' {
        11
    } else if c == 'C' || c == 'c' {
        12
    } else if c == 'D' || c == 'd' {
        13
    } else if c == 'E' || c == 'e' {
        14
    } else if c == 'F' || c == 'f' {
        15
    } else {
        16
    }
}

/// Left-to-right hex parsing of an index that must fit in a byte: -1 on a
/// non-digit character or when the value outgrows a byte, the accumulated
/// value otherwise.
pub open spec fn spec_parse_hex(s: Seq<char>, acc: int) -> int
    decreases s.len(),
{
    if s.len() == 0 {
        acc
    } else if hex_char_val(s[0]) == 16 {
        -1
    } else {
        let acc2 = acc * 16 + hex_char_val(s[0]);
        if acc2 > 255 {
            -1
        } else {
            spec_parse_hex(s.skip(1), acc2)
        }
    }
}

impl CVEREVM {
    /// Look a register up by its case-insensitive name: PC, SP, LR, SR, or
    /// R followed by a hex index below 16.
    #[verifier::loop_isolation(false)]
    pub fn get_register(&self, name: &str) -> (r: Option<u16>)
        requires
            self@.wf(),
        ensures
            r == spec_get_register(self@, name@),
    {
        let n = name.unicode_len();
        if n == 2 {
            let c0 = name.get_char(0);
            let c1 = name.get_char(1);
            if (c0 == 'P' || c0 == 'p') && (c1 == 'C' || c1 == 'c') {
                return Some(self.pc);
            }
            if (c0 == 'S' || c0 == 's') && (c1 == 'P' || c1 == 'p') {
                return Some(self.sp);
            }
            if (c0 == 'L' || c0 == 'l') && (c1 == 'R' || c1 == 'r') {
                return Some(self.lr);
            }
            if (c0 == 'S' || c0 == 's') && (c1 == 'R' || c1 == 'r') {
                return Some(self.sr.to_u16());
            }
        }
        if n >= 2 {
            let c0 = name.get_char(0);
            if c0 == 'R' || c0 == 'r' {
                let mut acc: u32 = 0;
                let mut i: usize = 1;
                while i < n
                    invariant
                        1 <= i <= n,
                        n == name@.len(),
                        acc <= 255,
                        spec_parse_hex(name@.skip(1), 0) == spec_parse_hex(
                            name@.skip(i as int),
                            acc as int,
                        ),
                    decreases n - i,
                {
                    let c = name.get_char(i);
                    let v = hex_char_value(c);
                    proof {
                        assert(name@.skip(i as int)[0] == name@[i as int]);
                        assert(name@.skip(i as int).len() == n - i);
                    }
                    if v >= 16 {
                        proof {
                            assert(spec_parse_hex(name@.skip(i as int), acc as int) == -1);
                        }
                        return None;
                    }
                    let acc2 = acc * 16 + v as u32;
                    if acc2 > 255 {
                        proof {
                            assert(spec_parse_hex(name@.skip(i as int), acc as int) == -1);
                        }
                        return None;
                    }
                    proof {
                        assert(name@.skip(i as int).skip(1) =~= name@.skip(i + 1));
                    }
                    acc = acc2;
                    i = i + 1;
                }
                proof {
                    assert(name@.skip(n as int) =~= Seq::<char>::empty());
                }
                if acc < 16 {
                    return Some(self.registers[acc as usize]);
                }
                return None;
            }
        }
        None
    }
}

/// The value of a hex digit character, either case; 16 for anything else.
fn hex_char_value(c: char) -> (v: u8)
    ensures
        v as int == hex_char_val(c),
{
    match c {
        '0' => 0,
        '1' => 1,
        '2' => 2,
        '3' => 3,
        '4' => 4,
        '5' => 5,
        '6' => 6,
        '7' => 7,
        '8' => 8,
        '9' => 9,
        'A' | 'a' => 10,
        'B' | 'b' => 11,
        'C' | 'c' => 12,
        'D' | 'd' => 13,
        'E' | 'e' => 14,
        'F' | 'f' => 15,
        _ => 16,
    }
}

} // verus!
