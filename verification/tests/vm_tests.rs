use cvere_vm::vm::CVEREVM;

#[test]
fn test_simple_add() {
    let mut vm = CVEREVM::new();
    let program = vec![
        0xC105, // LOADI R1, 0x05
        0xC203, // LOADI R2, 0x03
        0x1312, // ADD R3, R1, R2
        0xFFFF, // HALT
    ];

    vm.load_program(&program, 0);
    vm.run(100).unwrap();

    assert_eq!(vm.registers[1], 5);
    assert_eq!(vm.registers[2], 3);
    assert_eq!(vm.registers[3], 8);
    assert!(!vm.sr.carry);
}

#[test]
fn test_loop() {
    let mut vm = CVEREVM::new();
    let program = vec![
        0xC100, // LOADI R1, 0x00
        0xC20A, // LOADI R2, 0x0A
        0x2101, // ADDI R1, 0x01
        0x3321, // SUB R3, R2, R1
        0xF3FD, // BNE R3, -3
        0xFFFF, // HALT
    ];

    vm.load_program(&program, 0);
    vm.run(100).unwrap();

    assert_eq!(vm.registers[1], 10);
}

#[test]
fn test_fetch_at_memory_boundary_halts() {
    // Fetching at the last valid byte address returns the HALT encoding
    // rather than panicking or reading garbage.
    let mut vm = CVEREVM::new();
    vm.pc = 0xFFFF; // memory length - 1
    vm.step().unwrap();
    assert!(vm.halted);
    assert_eq!(vm.cycle_count, 1);
}

#[test]
fn test_step_after_halt_fails() {
    let mut vm = CVEREVM::new();
    vm.load_program(&[0xFFFF], 0);
    vm.step().unwrap();
    assert!(vm.halted);
    let r = vm.step();
    assert_eq!(r, Err("VM is halted".to_string()));
}

#[test]
fn test_run_counts_cycles() {
    let mut vm = CVEREVM::new();
    vm.load_program(&[0xC105, 0xC203, 0x1312, 0xFFFF], 0);
    let cycles = vm.run(100).unwrap();
    assert_eq!(cycles, 4);
    assert_eq!(vm.cycle_count, 4);
    // A second run on a halted machine consumes nothing
    let cycles = vm.run(100).unwrap();
    assert_eq!(cycles, 0);
}

#[test]
fn test_run_respects_budget() {
    let mut vm = CVEREVM::new();
    // An endless loop: JMP 0x000
    vm.load_program(&[0xD000], 0);
    let cycles = vm.run(25).unwrap();
    assert_eq!(cycles, 25);
    assert!(!vm.halted);
}

#[test]
fn test_add_sets_carry_and_zero() {
    let mut vm = CVEREVM::new();
    let program = vec![
        0xC1FF, // LOADI R1, 0xFF  (sign-extends to 0xFFFF)
        0xC201, // LOADI R2, 0x01
        0x3312, // SUB R3, R1, R2  (0xFFFE, clears zero)
        0x1312, // ADD R3, R1, R2  (0xFFFF + 1 = 0x10000: zero, carry)
        0xFFFF, // HALT
    ];
    vm.load_program(&program, 0);
    vm.run(100).unwrap();
    assert_eq!(vm.registers[3], 0);
    assert!(vm.sr.zero);
    assert!(vm.sr.carry);
    assert!(!vm.sr.negative);
}

#[test]
fn test_addi_accumulates() {
    let mut vm = CVEREVM::new();
    let program = vec![
        0xC105, // LOADI R1, 0x05
        0x2103, // ADDI R1, 0x03
        0xFFFF, // HALT
    ];
    vm.load_program(&program, 0);
    vm.run(100).unwrap();
    assert_eq!(vm.registers[1], 8);
}

#[test]
fn test_sub_leaves_carry_untouched() {
    // The flag asymmetry: ADD computes carry, SUB leaves it alone.
    let mut vm = CVEREVM::new();
    let program = vec![
        0xC1FF, // LOADI R1, 0xFF (0xFFFF)
        0xC201, // LOADI R2, 0x01
        0x1312, // ADD R3, R1, R2  (sets carry)
        0xC405, // LOADI R4, 0x05
        0xC503, // LOADI R5, 0x03
        0x3645, // SUB R6, R4, R5  (2; carry must stay set)
        0xFFFF, // HALT
    ];
    vm.load_program(&program, 0);
    vm.run(100).unwrap();
    assert_eq!(vm.registers[6], 2);
    assert!(vm.sr.carry);
    assert!(!vm.sr.zero);
}

#[test]
fn test_sub_wraps() {
    let mut vm = CVEREVM::new();
    let program = vec![
        0xC103, // LOADI R1, 0x03
        0xC205, // LOADI R2, 0x05
        0x3312, // SUB R3, R1, R2  (3 - 5 wraps to 0xFFFE)
        0xFFFF, // HALT
    ];
    vm.load_program(&program, 0);
    vm.run(100).unwrap();
    assert_eq!(vm.registers[3], 0xFFFE);
    assert!(vm.sr.negative);
}

#[test]
fn test_bitwise_ops() {
    let mut vm = CVEREVM::new();
    let program = vec![
        0xC10F, // LOADI R1, 0x0F
        0xC233, // LOADI R2, 0x33
        0x4312, // AND R3, R1, R2
        0x5412, // OR R4, R1, R2
        0x6512, // XOR R5, R1, R2
        0x7610, // NOT R6, R1
        0xFFFF, // HALT
    ];
    vm.load_program(&program, 0);
    vm.run(100).unwrap();
    assert_eq!(vm.registers[3], 0x03);
    assert_eq!(vm.registers[4], 0x3F);
    assert_eq!(vm.registers[5], 0x3C);
    assert_eq!(vm.registers[6], 0xFFF0);
}

#[test]
fn test_shifts_clamp_amount() {
    let mut vm = CVEREVM::new();
    let program = vec![
        0xC101, // LOADI R1, 0x01
        0xC212, // LOADI R2, 0x12 (shift amount 0x12 clamps to 2)
        0x8312, // SHL R3, R1, R2
        0xC440, // LOADI R4, 0x40
        0x9442, // SHR R4, R4, R2
        0xFFFF, // HALT
    ];
    vm.load_program(&program, 0);
    vm.run(100).unwrap();
    assert_eq!(vm.registers[3], 0x04);
    assert_eq!(vm.registers[4], 0x10);
}

#[test]
fn test_loadi_sign_extends() {
    let mut vm = CVEREVM::new();
    let program = vec![
        0xC1FF, // LOADI R1, 0xFF -> 0xFFFF
        0xC27F, // LOADI R2, 0x7F -> 0x007F
        0xFFFF, // HALT
    ];
    vm.load_program(&program, 0);
    vm.run(100).unwrap();
    assert_eq!(vm.registers[1], 0xFFFF);
    assert_eq!(vm.registers[2], 0x007F);
}

#[test]
fn test_store_and_load_round_trip() {
    let mut vm = CVEREVM::new();
    let program = vec![
        0xC142, // LOADI R1, 0x42 (the value)
        0xC220, // LOADI R2, 0x20 (the base address)
        0xB121, // STORE R1, R2, offset 1 word -> address 0x22
        0xA321, // LOAD R3, R2, offset 1 word
        0xFFFF, // HALT
    ];
    vm.load_program(&program, 0);
    vm.run(100).unwrap();
    assert_eq!(vm.registers[3], 0x42);
    // little-endian in memory
    assert_eq!(vm.memory[0x22], 0x42);
    assert_eq!(vm.memory[0x23], 0x00);
}

#[test]
fn test_store_at_boundary_is_noop() {
    let mut vm = CVEREVM::new();
    let last = vm.memory[0xFFFF];
    let program = vec![
        0xC142, // LOADI R1, 0x42
        0xC2FF, // LOADI R2, 0xFF -> 0xFFFF
        0xB120, // STORE R1, R2, offset 0 -> address 0xFFFF, out of bounds
        0xA320, // LOAD R3, R2, offset 0 -> reads 0
        0xFFFF, // HALT
    ];
    vm.load_program(&program, 0);
    vm.run(100).unwrap();
    assert_eq!(vm.memory[0xFFFF], last);
    assert_eq!(vm.registers[3], 0);
}

#[test]
fn test_register_zero_hardwired() {
    let mut vm = CVEREVM::new();
    let program = vec![
        0xC042, // LOADI R0, 0x42 (discarded)
        0xC105, // LOADI R1, 0x05
        0x1201, // ADD R2, R0, R1 (R0 reads 0)
        0xFFFF, // HALT
    ];
    vm.load_program(&program, 0);
    vm.run(100).unwrap();
    assert_eq!(vm.registers[0], 0);
    assert_eq!(vm.registers[2], 5);
}

#[test]
fn test_jmp_absolute() {
    let mut vm = CVEREVM::new();
    let program = vec![
        0xD006, // JMP 0x006
        0xC1AA, // skipped
        0xC2BB, // skipped
        0xC301, // LOADI R3, 0x01 (at address 6)
        0xFFFF, // HALT
    ];
    vm.load_program(&program, 0);
    vm.run(100).unwrap();
    assert_eq!(vm.registers[1], 0);
    assert_eq!(vm.registers[2], 0);
    assert_eq!(vm.registers[3], 1);
}

#[test]
fn test_beq_taken_and_not_taken() {
    let mut vm = CVEREVM::new();
    let program = vec![
        0xC100, // LOADI R1, 0x00
        0xE101, // BEQ R1, +1 (taken: skips the next word)
        0xC2AA, // skipped
        0xC301, // LOADI R3, 0x01
        0xE301, // BEQ R3, +1 (not taken: R3 != 0)
        0xC401, // LOADI R4, 0x01
        0xFFFF, // HALT
    ];
    vm.load_program(&program, 0);
    vm.run(100).unwrap();
    assert_eq!(vm.registers[2], 0);
    assert_eq!(vm.registers[4], 1);
}

#[test]
fn test_extended_words_are_noops() {
    let mut vm = CVEREVM::new();
    let program = vec![
        0xFF02, // CALL: recognized, executes as a no-op
        0xFF10, // RET
        0xFF21, // PUSH
        0xFF32, // POP
        0xFFFF, // HALT
    ];
    vm.load_program(&program, 0);
    let cycles = vm.run(100).unwrap();
    assert_eq!(cycles, 5);
    assert!(vm.halted);
}

#[test]
fn test_load_program_truncates_at_bound() {
    let mut vm = CVEREVM::new();
    vm.load_program(&[0x1111, 0x2222], 0xFFFE);
    // The first word fits in the last two bytes; the second is dropped.
    assert_eq!(vm.memory[0xFFFE], 0x11);
    assert_eq!(vm.memory[0xFFFF], 0x11);
    assert_eq!(vm.memory[0x0000], 0x00);
}

#[test]
fn test_reset_restores_boot_state() {
    let mut vm = CVEREVM::new();
    vm.load_program(&[0xC105, 0xFFFF], 0);
    vm.run(100).unwrap();
    assert!(vm.halted);
    vm.reset();
    assert_eq!(vm.pc, 0);
    assert_eq!(vm.sp, 0xFFFE);
    assert_eq!(vm.lr, 0);
    assert!(!vm.halted);
    assert_eq!(vm.cycle_count, 0);
    assert_eq!(vm.registers, [0u16; 16]);
    // memory is kept across reset
    assert_eq!(vm.memory[0], 0x05);
}

#[test]
fn test_get_register_by_name() {
    let mut vm = CVEREVM::new();
    vm.load_program(&[0xC105, 0xFFFF], 0);
    vm.run(100).unwrap();
    assert_eq!(vm.get_register("PC"), Some(vm.pc));
    assert_eq!(vm.get_register("pc"), Some(vm.pc));
    assert_eq!(vm.get_register("SP"), Some(0xFFFE));
    assert_eq!(vm.get_register("LR"), Some(0));
    assert_eq!(vm.get_register("SR"), Some(vm.sr.to_u16()));
    assert_eq!(vm.get_register("R1"), Some(5));
    assert_eq!(vm.get_register("r1"), Some(5));
    assert_eq!(vm.get_register("Rf"), Some(0));
    assert_eq!(vm.get_register("R10"), None); // index 16: out of range
    assert_eq!(vm.get_register("R01"), Some(5)); // leading zero, still index 1
    assert_eq!(vm.get_register("R"), None);
    assert_eq!(vm.get_register("RG"), None);
    assert_eq!(vm.get_register("R+5"), None); // hex digits only
    assert_eq!(vm.get_register("X"), None);
    assert_eq!(vm.get_register(""), None);
}

#[test]
fn test_state_text_of_fresh_machine() {
    let vm = CVEREVM::new();
    let expected = "=== CVERE VM State ===\n\
                    PC: 0x0000  SP: 0xFFFE  LR: 0x0000\n\
                    SR: Z=0 N=0 C=0 V=0\n\
                    Cycles: 0  Halted: false\n\
                    \nRegisters:\n\
                    R0: 0x0000  R1: 0x0000  R2: 0x0000  R3: 0x0000  \n\
                    R4: 0x0000  R5: 0x0000  R6: 0x0000  R7: 0x0000  \n\
                    R8: 0x0000  R9: 0x0000  RA: 0x0000  RB: 0x0000  \n\
                    RC: 0x0000  RD: 0x0000  RE: 0x0000  RF: 0x0000  \n";
    assert_eq!(vm.state_text(), expected);
}
