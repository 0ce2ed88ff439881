use cvere_vm::flags::StatusFlags;
use cvere_vm::registers::{PrivilegeLevel, RegisterFile};

fn banked_sp_of_active_ring(rf: &RegisterFile) -> u16 {
    match rf.privilege {
        PrivilegeLevel::Kernel => rf.kernel_sp,
        PrivilegeLevel::Supervisor => rf.supervisor_sp,
        PrivilegeLevel::User => rf.user_sp,
    }
}

#[test]
fn test_gp_write_read_round_trip() {
    // write_gp(i, v); read_gp(i) == v for i in 1..16, and == 0 for i == 0.
    let mut rf = RegisterFile::new();
    for i in 1..16u8 {
        rf.write_gp(i, 0x1234 + i as u16);
        assert_eq!(rf.read_gp(i), 0x1234 + i as u16);
    }
    rf.write_gp(0, 0xBEEF);
    assert_eq!(rf.read_gp(0), 0);
    // out-of-range indices: writes are no-ops, reads return 0
    rf.write_gp(16, 0xBEEF);
    assert_eq!(rf.read_gp(16), 0);
    assert_eq!(rf.read_gp(255), 0);
}

#[test]
fn test_boot_defaults() {
    let rf = RegisterFile::new();
    assert_eq!(rf.pc, 0);
    assert_eq!(rf.sp, 0xFFFE);
    assert_eq!(rf.lr, 0);
    assert_eq!(rf.sr, 0);
    assert_eq!(rf.kernel_sp, 0xFFFE);
    assert_eq!(rf.supervisor_sp, 0xEFFE);
    assert_eq!(rf.user_sp, 0xDFFE);
    assert_eq!(rf.privilege, PrivilegeLevel::Kernel);
    assert_eq!(rf.exception_handler, 0x0010);
    assert!(rf.is_kernel_mode());
    assert!(!rf.is_supervisor_mode());
    assert!(!rf.is_user_mode());
}

#[test]
fn test_sp_tracks_active_ring_through_transitions() {
    // Over a sequence of ring transitions, SP always equals the banked
    // value of the currently active ring.
    let mut rf = RegisterFile::new();
    assert_eq!(rf.sp, banked_sp_of_active_ring(&rf));

    rf.drop_privilege(PrivilegeLevel::User);
    assert!(rf.is_user_mode());
    assert_eq!(rf.sp, 0xDFFE);
    assert_eq!(rf.sp, banked_sp_of_active_ring(&rf));

    // the user program moves its stack, then traps back to kernel
    rf.sp = 0xD000;
    rf.enter_kernel_mode();
    assert!(rf.is_kernel_mode());
    assert_eq!(rf.sp, 0xFFFE);
    assert_eq!(rf.user_sp, 0xD000);
    assert_eq!(rf.sp, banked_sp_of_active_ring(&rf));

    rf.drop_privilege(PrivilegeLevel::Supervisor);
    assert!(rf.is_supervisor_mode());
    assert_eq!(rf.sp, 0xEFFE);
    assert_eq!(rf.sp, banked_sp_of_active_ring(&rf));

    rf.drop_privilege(PrivilegeLevel::User);
    assert!(rf.is_user_mode());
    assert_eq!(rf.sp, 0xD000);
    assert_eq!(rf.sp, banked_sp_of_active_ring(&rf));

    // enter_kernel_mode from a non-User ring is a no-op
    rf.drop_privilege(PrivilegeLevel::Supervisor);
    rf.enter_kernel_mode();
    assert!(rf.is_supervisor_mode());
    assert_eq!(rf.sp, banked_sp_of_active_ring(&rf));

    // the identity transition is idempotent
    rf.drop_privilege(PrivilegeLevel::Supervisor);
    assert!(rf.is_supervisor_mode());
    assert_eq!(rf.sp, banked_sp_of_active_ring(&rf));
}

#[test]
fn test_exception_entry_saves_context() {
    let mut rf = RegisterFile::new();
    rf.drop_privilege(PrivilegeLevel::User);
    rf.pc = 0x1234;
    rf.sr = 0x0005;
    rf.sp = 0xD000;

    rf.raise_privilege_on_exception();

    assert_eq!(rf.saved_pc, 0x1234);
    assert_eq!(rf.saved_sr, 0x0005);
    assert_eq!(rf.user_sp, 0xD000);
    assert!(rf.is_kernel_mode());
    assert_eq!(rf.sp, rf.kernel_sp);
    assert_eq!(rf.pc, 0x0010); // the exception handler address
    assert_eq!(rf.sp, banked_sp_of_active_ring(&rf));
}

#[test]
fn test_reset_restores_every_field() {
    let mut rf = RegisterFile::new();
    rf.write_gp(5, 0xAAAA);
    rf.pc = 0x100;
    rf.sp = 0x200;
    rf.lr = 0x300;
    rf.sr = 0xF;
    rf.drop_privilege(PrivilegeLevel::User);
    rf.raise_privilege_on_exception();

    rf.reset();

    assert_eq!(rf.read_gp(5), 0);
    assert_eq!(rf.pc, 0);
    assert_eq!(rf.sp, 0xFFFE);
    assert_eq!(rf.lr, 0);
    assert_eq!(rf.sr, 0);
    assert_eq!(rf.kernel_sp, 0xFFFE);
    assert_eq!(rf.supervisor_sp, 0xEFFE);
    assert_eq!(rf.user_sp, 0xDFFE);
    assert_eq!(rf.privilege, PrivilegeLevel::Kernel);
    assert_eq!(rf.exception_handler, 0x0010);
    assert_eq!(rf.saved_pc, 0);
    assert_eq!(rf.saved_sr, 0);
}

#[test]
fn test_flags_round_trip_all_16() {
    // from_u16(to_u16(f)) == f for every combination of the four flags.
    for bits in 0..16u16 {
        let f = StatusFlags {
            zero: bits & 1 != 0,
            negative: bits & 2 != 0,
            carry: bits & 4 != 0,
            overflow: bits & 8 != 0,
        };
        let packed = f.to_u16();
        assert_eq!(packed, bits);
        let back = StatusFlags::from_u16(packed);
        assert_eq!(back, f);
    }
}

#[test]
fn test_flags_from_ignores_high_bits() {
    let f = StatusFlags::from_u16(0xFFF5);
    assert!(f.zero);
    assert!(!f.negative);
    assert!(f.carry);
    assert!(!f.overflow);
}

#[test]
fn test_flags_new_all_clear() {
    let f = StatusFlags::new();
    assert!(!f.zero && !f.negative && !f.carry && !f.overflow);
    assert_eq!(f.to_u16(), 0);
}

#[test]
fn test_get_set_flags() {
    let mut rf = RegisterFile::new();
    let f = StatusFlags { zero: true, negative: false, carry: true, overflow: false };
    rf.set_flags(f);
    assert_eq!(rf.sr, 0b0101);
    let g = rf.get_flags();
    assert_eq!(g, f);
}

#[test]
fn test_dump_of_fresh_register_file() {
    let rf = RegisterFile::new();
    let lines = vec![
        "General Purpose Registers:\n",
        "  R0: 0x0000  R1: 0x0000  R2: 0x0000  R3: 0x0000\n",
        "  R4: 0x0000  R5: 0x0000  R6: 0x0000  R7: 0x0000\n",
        "  R8: 0x0000  R9: 0x0000  RA: 0x0000  RB: 0x0000\n",
        "  RC: 0x0000  RD: 0x0000  RE: 0x0000  RF: 0x0000\n",
        "\nSpecial Registers:\n",
        "  PC: 0x0000\n",
        "  SP: 0xFFFE (kernel)\n",
        "  LR: 0x0000\n",
        "  SR: 0x0000 [Z=0 N=0 C=0 V=0]\n",
        "\nPrivilege Mode: Kernel\n",
    ];
    assert_eq!(rf.dump(), lines.join(""));
}

#[test]
fn test_dump_annotates_user_ring() {
    let mut rf = RegisterFile::new();
    rf.drop_privilege(PrivilegeLevel::User);
    let text = rf.dump();
    assert!(text.contains("  SP: 0xDFFE (user)\n"));
    assert!(text.contains("\nPrivilege Mode: User\n"));
}
