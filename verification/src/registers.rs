//! The register file: 16 general-purpose registers, the special registers,
//! and the privilege-ring banking of stack pointers.
//!
//! Register 0 is hardwired to the constant 0: reads ignore the stored value
//! and writes are discarded. Exactly one privilege ring is active at a time;
//! each ring keeps its own banked stack pointer, and every sanctioned ring
//! transition banks the outgoing SP and loads the incoming one, so SP is
//! never left stale for the ring it belongs to.

use vstd::prelude::*;
use vstd::string::StringExecFns;
pub use crate::flags::StatusFlags;
use crate::flags::{spec_flag_bits, spec_flags_from};
use crate::syscall::Console;
use crate::text::{bool_bit, hex4, hex_digit, push_bool_bit, push_hex4, push_hex_digit};

verus! {

/// A privilege ring; Kernel is the most privileged, User the least.
#[derive(Debug, Clone, Copy, PartialEq, Eq, Structural)]
pub enum PrivilegeLevel {
    Kernel,
    Supervisor,
    User,
}

/// Register file with 16 general-purpose registers and special registers.
pub struct RegisterFile {
    /// General-purpose registers R0 through RF; slot 0 is hardwired to 0
    /// by the read and write operations.
    pub gp_regs: [u16; 16],
    /// Program counter: the next fetch address.
    pub pc: u16,
    /// The live stack pointer, an alias of the active ring's banked value.
    pub sp: u16,
    /// Link register; present for future call/return support.
    pub lr: u16,
    /// Status register, holding the packed condition flags.
    pub sr: u16,
    /// Banked stack pointer of the Kernel ring.
    pub kernel_sp: u16,
    /// Banked stack pointer of the Supervisor ring.
    pub supervisor_sp: u16,
    /// Banked stack pointer of the User ring.
    pub user_sp: u16,
    /// The active privilege ring.
    pub privilege: PrivilegeLevel,
    /// Address the program counter is forced to on exception entry.
    pub exception_handler: u16,
    /// Program counter captured on exception entry.
    pub saved_pc: u16,
    /// Status register captured on exception entry.
    pub saved_sr: u16,
}

/// A general-purpose register bank after a write: index 0 and out-of-range
/// indices are left unchanged, any other index takes the new value.
pub open spec fn gp_written(gp: Seq<u16>, reg: u8, value: u16) -> Seq<u16> {
    if reg == 0 || reg >= 16 {
        gp
    } else {
        gp.update(reg as int, value)
    }
}

/// What a general-purpose register read returns: 0 for index 0 and for
/// out-of-range indices, the stored value otherwise.
pub open spec fn gp_read(gp: Seq<u16>, reg: u8) -> u16 {
    if reg == 0 || reg >= 16 {
        0
    } else {
        gp[reg as int]
    }
}

impl RegisterFile {
    /// The general-purpose register bank as a sequence of 16 words.
    pub open spec fn gp(self) -> Seq<u16> {
        self.gp_regs@
    }

    /// The banked stack pointer that belongs to a given ring.
    pub open spec fn spec_banked_sp(self, ring: PrivilegeLevel) -> u16 {
        match ring {
            PrivilegeLevel::Kernel => self.kernel_sp,
            PrivilegeLevel::Supervisor => self.supervisor_sp,
            PrivilegeLevel::User => self.user_sp,
        }
    }

    /// SP equals the banked value of the currently active ring.
    pub open spec fn sp_consistent(self) -> bool {
        self.sp == self.spec_banked_sp(self.privilege)
    }

    /// The value a read of a general-purpose register returns.
    pub open spec fn spec_read_gp(self, reg: u8) -> u16 {
        gp_read(self.gp(), reg)
    }

    /// Every field other than the general-purpose bank is equal.
    pub open spec fn eq_except_gp(self, other: RegisterFile) -> bool {
        &&& self.pc == other.pc
        &&& self.sp == other.sp
        &&& self.lr == other.lr
        &&& self.sr == other.sr
        &&& self.kernel_sp == other.kernel_sp
        &&& self.supervisor_sp == other.supervisor_sp
        &&& self.user_sp == other.user_sp
        &&& self.privilege == other.privilege
        &&& self.exception_handler == other.exception_handler
        &&& self.saved_pc == other.saved_pc
        &&& self.saved_sr == other.saved_sr
    }

    /// The documented boot state: Kernel ring, SP and the kernel bank at
    /// 0xFFFE, the supervisor bank at 0xEFFE, the user bank at 0xDFFE, the
    /// exception handler at 0x0010, everything else zero.
    pub open spec fn spec_boot(self) -> bool {
        &&& self.gp() == Seq::new(16, |i: int| 0u16)
        &&& self.pc == 0
        &&& self.sp == 0xFFFE
        &&& self.lr == 0
        &&& self.sr == 0
        &&& self.kernel_sp == 0xFFFE
        &&& self.supervisor_sp == 0xEFFE
        &&& self.user_sp == 0xDFFE
        &&& self.privilege == PrivilegeLevel::Kernel
        &&& self.exception_handler == 0x0010
        &&& self.saved_pc == 0
        &&& self.saved_sr == 0
    }

    /// A register file in the boot state. Boot establishes the banking
    /// invariant: SP equals the kernel bank and the Kernel ring is active.
    pub fn new() -> (r: RegisterFile)
        ensures
            r.spec_boot(),
            r.sp_consistent(),
    {
        let r = RegisterFile {
            gp_regs: [0; 16],
            pc: 0,
            sp: 0xFFFE,  // stack grows downward
            lr: 0,
            sr: 0,
            kernel_sp: 0xFFFE,
            supervisor_sp: 0xEFFE,
            user_sp: 0xDFFE,
            privilege: PrivilegeLevel::Kernel,  // boot in kernel mode
            exception_handler: 0x0010,
            saved_pc: 0,
            saved_sr: 0,
        };
        proof {
            assert(r.gp() =~= Seq::new(16, |i: int| 0u16));
        }
        r
    }

    /// Read a general-purpose register. Index 0 and out-of-range indices
    /// read as 0.
    pub fn read_gp(&self, reg: u8) -> (r: u16)
        ensures
            r == self.spec_read_gp(reg),
    {
        if reg >= 16 {
            return 0;
        }
        // R0 always reads as 0
        if reg == 0 {
            0
        } else {
            self.gp_regs[reg as usize]
        }
    }

    /// Write a general-purpose register. Writes to index 0 and to
    /// out-of-range indices are discarded.
    pub fn write_gp(&mut self, reg: u8, value: u16)
        ensures
            final(self).gp() == gp_written(old(self).gp(), reg, value),
            final(self).eq_except_gp(*old(self)),
    {
        if reg >= 16 {
            return ;
        }
        // R0 is hardwired to 0, writes are ignored
        if reg != 0 {
            self.gp_regs[reg as usize] = value;
        }
    }

    /// Promote from the User ring to the Kernel ring, banking the user SP
    /// and loading the kernel one. From any other ring this is a no-op, so
    /// it preserves the banking invariant rather than establishing it.
    pub fn enter_kernel_mode(&mut self)
        ensures
            old(self).privilege == PrivilegeLevel::User ==> {
                &&& final(self).user_sp == old(self).sp
                &&& final(self).sp == old(self).kernel_sp
                &&& final(self).privilege == PrivilegeLevel::Kernel
                &&& final(self).kernel_sp == old(self).kernel_sp
                &&& final(self).supervisor_sp == old(self).supervisor_sp
                &&& final(self).pc == old(self).pc
                &&& final(self).lr == old(self).lr
                &&& final(self).sr == old(self).sr
                &&& final(self).exception_handler == old(self).exception_handler
                &&& final(self).saved_pc == old(self).saved_pc
                &&& final(self).saved_sr == old(self).saved_sr
            },
            old(self).privilege != PrivilegeLevel::User ==> *final(self) == *old(self),
            final(self).gp() == old(self).gp(),
            old(self).sp_consistent() || old(self).privilege == PrivilegeLevel::User
                ==> final(self).sp_consistent(),
    {
        if self.privilege == PrivilegeLevel::User {
            // Save user stack pointer
            self.user_sp = self.sp;
            // Switch to kernel stack
            self.sp = self.kernel_sp;
            self.privilege = PrivilegeLevel::Kernel;
        }
    }

    /// Demotion: drop privilege to any target ring. Banks the current
    /// ring's SP into its own slot, then loads the target's banked SP.
    /// Valid for any ring pair, the identity transition included, and
    /// always leaves SP equal to the active ring's banked value.
    pub fn drop_privilege(&mut self, target: PrivilegeLevel)
        ensures
            final(self).privilege == target,
            final(self).kernel_sp == if old(self).privilege == PrivilegeLevel::Kernel {
                old(self).sp
            } else {
                old(self).kernel_sp
            },
            final(self).supervisor_sp == if old(self).privilege == PrivilegeLevel::Supervisor {
                old(self).sp
            } else {
                old(self).supervisor_sp
            },
            final(self).user_sp == if old(self).privilege == PrivilegeLevel::User {
                old(self).sp
            } else {
                old(self).user_sp
            },
            final(self).sp == final(self).spec_banked_sp(target),
            final(self).sp_consistent(),
            final(self).gp() == old(self).gp(),
            final(self).pc == old(self).pc,
            final(self).lr == old(self).lr,
            final(self).sr == old(self).sr,
            final(self).exception_handler == old(self).exception_handler,
            final(self).saved_pc == old(self).saved_pc,
            final(self).saved_sr == old(self).saved_sr,
    {
        // Save current SP to the correct bank
        match self.privilege {
            PrivilegeLevel::Kernel => self.kernel_sp = self.sp,
            PrivilegeLevel::Supervisor => self.supervisor_sp = self.sp,
            PrivilegeLevel::User => self.user_sp = self.sp,
        }
        // Load target SP and set mode
        self.sp = match target {
            PrivilegeLevel::Kernel => self.kernel_sp,
            PrivilegeLevel::Supervisor => self.supervisor_sp,
            PrivilegeLevel::User => self.user_sp,
        };
        self.privilege = target;
    }

    /// Promotion, sanctioned only for engine-triggered exceptions: capture
    /// PC and SR into the save slots, bank the current ring's SP, force the
    /// Kernel ring with its banked SP, and jump to the exception handler.
    /// Always leaves SP equal to the active (Kernel) ring's banked value.
    pub fn raise_privilege_on_exception(&mut self)
        ensures
            final(self).saved_pc == old(self).pc,
            final(self).saved_sr == old(self).sr,
            final(self).supervisor_sp == if old(self).privilege == PrivilegeLevel::Supervisor {
                old(self).sp
            } else {
                old(self).supervisor_sp
            },
            final(self).user_sp == if old(self).privilege == PrivilegeLevel::User {
                old(self).sp
            } else {
                old(self).user_sp
            },
            final(self).kernel_sp == old(self).kernel_sp,
            final(self).privilege == PrivilegeLevel::Kernel,
            final(self).sp == old(self).kernel_sp,
            final(self).pc == old(self).exception_handler,
            final(self).sp_consistent(),
            final(self).gp() == old(self).gp(),
            final(self).lr == old(self).lr,
            final(self).sr == old(self).sr,
            final(self).exception_handler == old(self).exception_handler,
    {
        // 1. Save state
        self.saved_pc = self.pc;
        self.saved_sr = self.sr;
        // 2. Save current SP (the Kernel ring already has its SP live)
        match self.privilege {
            PrivilegeLevel::Supervisor => self.supervisor_sp = self.sp,
            PrivilegeLevel::User => self.user_sp = self.sp,
            PrivilegeLevel::Kernel => {},
        }
        // 3. Jump to the Kernel ring to handle the event
        self.privilege = PrivilegeLevel::Kernel;
        self.sp = self.kernel_sp;
        self.pc = self.exception_handler;
    }

    /// Whether the Kernel ring is active.
    pub fn is_kernel_mode(&self) -> (r: bool)
        ensures
            r == (self.privilege == PrivilegeLevel::Kernel),
    {
        self.privilege == PrivilegeLevel::Kernel
    }

    /// Whether the Supervisor ring is active.
    pub fn is_supervisor_mode(&self) -> (r: bool)
        ensures
            r == (self.privilege == PrivilegeLevel::Supervisor),
    {
        self.privilege == PrivilegeLevel::Supervisor
    }

    /// Whether the User ring is active.
    pub fn is_user_mode(&self) -> (r: bool)
        ensures
            r == (self.privilege == PrivilegeLevel::User),
    {
        self.privilege == PrivilegeLevel::User
    }

    /// Restore every field to the documented boot defaults.
    pub fn reset(&mut self)
        ensures
            final(self).spec_boot(),
            final(self).sp_consistent(),
    {
        self.gp_regs = [0; 16];
        self.pc = 0;
        self.sp = 0xFFFE;
        self.kernel_sp = 0xFFFE;
        self.supervisor_sp = 0xEFFE;
        self.user_sp = 0xDFFE;
        self.lr = 0;
        self.sr = 0;
        self.privilege = PrivilegeLevel::Kernel;
        self.exception_handler = 0x0010;
        self.saved_pc = 0;
        self.saved_sr = 0;
        proof {
            assert(self.gp() =~= Seq::new(16, |i: int| 0u16));
        }
    }

    /// The condition flags unpacked from the status register.
    pub fn get_flags(&self) -> (r: StatusFlags)
        ensures
            r == spec_flags_from(self.sr),
    {
        StatusFlags::from_u16(self.sr)
    }

    /// Pack a flag set into the status register.
    pub fn set_flags(&mut self, flags: StatusFlags)
        ensures
            final(self).sr == spec_flag_bits(flags),
            final(self).gp() == old(self).gp(),
            final(self).pc == old(self).pc,
            final(self).sp == old(self).sp,
            final(self).lr == old(self).lr,
            final(self).kernel_sp == old(self).kernel_sp,
            final(self).supervisor_sp == old(self).supervisor_sp,
            final(self).user_sp == old(self).user_sp,
            final(self).privilege == old(self).privilege,
            final(self).exception_handler == old(self).exception_handler,
            final(self).saved_pc == old(self).saved_pc,
            final(self).saved_sr == old(self).saved_sr,
    {
        self.sr = flags.to_u16();
    }
}

/// The display name of a privilege ring.
pub open spec fn spec_ring_name(p: PrivilegeLevel) -> Seq<char> {
    match p {
        PrivilegeLevel::Kernel => "Kernel"@,
        PrivilegeLevel::Supervisor => "Supervisor"@,
        PrivilegeLevel::User => "User"@,
    }
}

/// The first n general-purpose register entries of the state dump, four to
/// a line.
pub open spec fn spec_gp_entries(gp: Seq<u16>, n: int) -> Seq<char>
    decreases n,
{
    if n <= 0 {
        Seq::<char>::empty()
    } else {
        spec_gp_entries(gp, n - 1) + "  R"@ + seq![hex_digit(n - 1)] + ": 0x"@ + hex4(
            gp_read(gp, (n - 1) as u8),
        ) + (if n % 4 == 0 {
            "\n"@
        } else {
            Seq::<char>::empty()
        })
    }
}

/// The full state dump of a register file: the general-purpose bank, the
/// special registers, the decoded flag bits, and the privilege ring.
pub open spec fn spec_dump(rf: RegisterFile) -> Seq<char> {
    let f = spec_flags_from(rf.sr);
    "General Purpose Registers:\n"@ + spec_gp_entries(rf.gp(), 16) + "\nSpecial Registers:\n"@
        + "  PC: 0x"@ + hex4(rf.pc) + "\n"@ + "  SP: 0x"@ + hex4(rf.sp) + " ("@ + (
    if rf.privilege == PrivilegeLevel::Kernel {
        "kernel"@
    } else {
        "user"@
    }) + ")\n"@ + "  LR: 0x"@ + hex4(rf.lr) + "\n"@ + "  SR: 0x"@ + hex4(rf.sr) + " "@ + "[Z="@
        + seq![bool_bit(f.zero)] + " N="@ + seq![bool_bit(f.negative)] + " C="@ + seq![
        bool_bit(f.carry),
    ] + " V="@ + seq![bool_bit(f.overflow)] + "]\n"@ + "\nPrivilege Mode: "@ + spec_ring_name(
        rf.privilege,
    ) + "\n"@
}

impl RegisterFile {
    /// Render the register state as readable text, for debugging.
    #[verifier::loop_isolation(false)]
    pub fn dump(&self) -> (r: String)
        ensures
            r@ == spec_dump(*self),
    {
        let mut result = String::new();
        result.append("General Purpose Registers:\n");
        let mut i: u8 = 0;
        while i < 16
            invariant
                i <= 16,
                result@ == "General Purpose Registers:\n"@ + spec_gp_entries(self.gp(), i as int),
            decreases 16 - i,
        {
            result.append("  R");
            push_hex_digit(&mut result, i as u16);
            result.append(": 0x");
            push_hex4(&mut result, self.read_gp(i));
            if (i + 1) % 4 == 0 {
                result.append("\n");
            }
            i = i + 1;
            proof {
                assert(result@ =~= "General Purpose Registers:\n"@ + spec_gp_entries(
                    self.gp(),
                    i as int,
                ));
            }
        }
        result.append("\nSpecial Registers:\n");
        result.append("  PC: 0x");
        push_hex4(&mut result, self.pc);
        result.append("\n");
        result.append("  SP: 0x");
        push_hex4(&mut result, self.sp);
        result.append(" (");
        if self.is_kernel_mode() {
            result.append("kernel");
        } else {
            result.append("user");
        }
        result.append(")\n");
        result.append("  LR: 0x");
        push_hex4(&mut result, self.lr);
        result.append("\n");
        result.append("  SR: 0x");
        push_hex4(&mut result, self.sr);
        result.append(" ");
        let flags = self.get_flags();
        result.append("[Z=");
        push_bool_bit(&mut result, flags.zero);
        result.append(" N=");
        push_bool_bit(&mut result, flags.negative);
        result.append(" C=");
        push_bool_bit(&mut result, flags.carry);
        result.append(" V=");
        push_bool_bit(&mut result, flags.overflow);
        result.append("]\n");
        result.append("\nPrivilege Mode: ");
        match self.privilege {
            PrivilegeLevel::Kernel => result.append("Kernel"),
            PrivilegeLevel::Supervisor => result.append("Supervisor"),
            PrivilegeLevel::User => result.append("User"),
        }
        result.append("\n");
        proof {
            assert(result@ =~= spec_dump(*self));
        }
        result
    }

    /// All characters the console has emitted so far, as text. The console
    /// is a separate component owned by the engine; the register file only
    /// reaches it through this explicit capability.
    pub fn get_console_output(&self, console: &Console) -> (r: String)
        ensures
            r@ == console.output_view(),
    {
        console.get_output()
    }

    /// Queue text on the console's pending-input FIFO, through the same
    /// explicit capability as get_console_output.
    pub fn queue_console_input(&self, console: &mut Console, input: &str)
        ensures
            final(console).input_view() == old(console).input_view() + input@,
            final(console).output_view() == old(console).output_view(),
    {
        console.queue_input(input);
    }
}

/// Writing a general-purpose register and reading it back returns the
/// written value for every index in 1..16, and 0 for index 0, whatever was
/// written there.
pub proof fn lemma_gp_write_read(gp: Seq<u16>, reg: u8, v: u16)
    requires
        gp.len() == 16,
    ensures
        1 <= reg < 16 ==> gp_read(gp_written(gp, reg, v), reg) == v,
        gp_read(gp_written(gp, 0, v), 0) == 0,
{
}

} // verus!
