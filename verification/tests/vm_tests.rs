use rvsim::vm::common::OperandsFormat;
use rvsim::vm::jtypes::extract_jtype;
use rvsim::vm::vm::VM;

// === DATA HAZARDS ==============

#[test]
fn test_data_hazard_addi() {
    // ADDI x8, x0, 5
    // ADDI x9, x8, 5
    let mut vm = VM::new(vec![0x13, 0x04, 0x50, 0x00, 0x93, 0x04, 0x54, 0x00]);
    vm.run();
    assert_eq!(vm.registers[8], 5);
    assert_eq!(vm.registers[9], 10);
    assert_eq!(vm.cycle, 6);
}

#[test]
fn test_data_hazard_lb() {
    // LB x8, 8(x0)
    // ADDI x9, x8, 5
    let mut vm = VM::new(vec![0x03, 0x04, 0x80, 0x00, 0x93, 0x04, 0x54, 0x00, 0x05]);
    vm.run();
    assert_eq!(vm.registers[8], 5);
    assert_eq!(vm.registers[9], 10);
    assert_eq!(vm.cycle, 7);
}

#[test]
fn test_data_hazard_lb_addi() {
    // LB x8, 12(x0)
    // ADDI x9, x8, 5
    // ADDI x10, x9, 5
    let mut vm = VM::new(vec![
        0x03, 0x04, 0xc0, 0x00, 0x93, 0x04, 0x54, 0x00, 0x13, 0x85, 0x54, 0x00, 0x05,
    ]);
    vm.run();
    assert_eq!(vm.registers[8], 5);
    assert_eq!(vm.registers[9], 10);
    assert_eq!(vm.registers[10], 15);
    assert_eq!(vm.cycle, 8);
}

#[test]
fn test_data_hazard_lb_sb() {
    // LB x8, 8(x0)
    // SB x8, 9(x0)
    let mut vm = VM::new(vec![
        0x03, 0x04, 0x80, 0x00, 0xa3, 0x04, 0x80, 0x00, 0x01, 0x02,
    ]);
    vm.registers[8] = 5;
    vm.run();
    assert_eq!(vm.registers[8], 0x01);
    assert_eq!(vm.memory[8], 0x01);
    assert_eq!(vm.cycle, 6); // 1 stall
}

#[test]
fn test_data_hazard_addi_beq() {
    // ADDI x1, x0, 1
    // BEQ x1, x2, 8
    // ADDI x3, x0, 5 skip this one
    // ADDI x4, x0, 5

    let mut vm = VM::new(vec![
        0x93, 0x00, 0x10, 0x00, 0x63, 0x84, 0x20, 0x00, 0x93, 0x01, 0x50, 0x00, 0x13, 0x02,
        0x50, 0x00,
    ]);
    vm.registers[2] = 1;
    vm.run();

    assert_eq!(vm.registers[3], 0); // skipped
    assert_eq!(vm.registers[4], 5);
}

// === PIPELINED ==============

#[test]
fn test_bne_for_loop() {
    // ADDI x9, x0, 10
    // ADDI x8, x8, 1
    // BNE x8, x9, -4

    let program = vec![
        0x93, 0x04, 0xa0, 0x00, 0x13, 0x04, 0x14, 0x00, 0xe3, 0x1e, 0x94, 0xfe,
    ];

    let mut vm = VM::new(program);
    vm.run();

    assert_eq!(vm.registers[8], 10);
}

#[test]
fn test_jal_flush() {
    // JAL x1, 8
    // ADDI x2, x0, 42
    // ADDI x3, x0, 99

    let program = vec![
        0xef, 0x00, 0x80, 0x00, // JAL x1, 8
        0x13, 0x01, 0xa0, 0x02, // ADDI x2, x0, 42 (should be skipped)
        0x93, 0x01, 0x30, 0x06, // ADDI x3, x0, 99
    ];

    let mut vm = VM::new(program);
    vm.run();

    assert_eq!(vm.registers[1], 4); // x1 = return address (pc + 4 before jump)
    assert_eq!(vm.registers[2], 0); // x2 not set (skipped)
    assert_eq!(vm.registers[3], 99); // x3 set by ADDI
}

#[test]
fn test_cycle_count() {
    // ADDI x0 x0 0
    let mut vm = VM::new(vec![0x13, 0x00, 0x00, 0x00]);
    vm.run();
    assert_eq!(vm.cycle, 5);

    // ADDI x0 x0 0
    // ADDI x0 x0 0
    let mut vm = VM::new(vec![0x13, 0x00, 0x00, 0x00, 0x13, 0x00, 0x00, 0x00]);
    vm.run();
    assert_eq!(vm.cycle, 6);

    // ADDI x0 x0 0
    // ADDI x0 x0 0
    // ADDI x0 x0 0
    let mut vm = VM::new(vec![
        0x13, 0x00, 0x00, 0x00, 0x13, 0x00, 0x00, 0x00, 0x13, 0x00, 0x00, 0x00,
    ]);
    vm.run();
    assert_eq!(vm.cycle, 7);
}

#[test]
fn test_lb_twice_same_register() {
    // LB x8, 8(x0)
    // LB x8, 9(x0)
    let mut vm = VM::new(vec![
        0x03, 0x04, 0x80, 0x00, 0x03, 0x04, 0x90, 0x00, 0x01, 0x02,
    ]);
    vm.run();
    assert_eq!(vm.registers[8], 0x02);
    assert_eq!(vm.cycle, 6); // no stalls
}

#[test]
fn test_sb_lb_raw() {
    // read after write
    // SB x0, 8(x0)
    // LB x9, 8(x0)
    let mut vm = VM::new(vec![0x23, 0x04, 0x00, 0x00, 0x83, 0x04, 0x80, 0x00, 0x01]);
    vm.registers[9] = 5;
    vm.run();
    assert_eq!(vm.registers[9], 0x00);
    assert_eq!(vm.cycle, 6); // no stalls
}

// === NON PIPELINED ==============

#[test]
fn test_addi() {
    // ADDI x1, x0, 5
    // 000000000101 00000 000 00001 0010011
    let mut vm = VM::new(vec![0x93, 0x00, 0x50, 0x00]);
    vm.step_no_pipeline();
    assert_eq!(vm.registers[1], 5);
}

#[test]
fn test_addi_x0_remain_0() {
    // ADDI x0, x0, 5
    let mut vm = VM::new(vec![0x13, 0x00, 0x50, 0x00]);
    vm.step_no_pipeline();
    assert_eq!(vm.registers[0], 0);
}

#[test]
fn test_lb() {
    // LB x1, 4(x0)
    // 000000000100 00000 000 00001 0000011
    let mut vm = VM::new(vec![0x83, 0x00, 0x40, 0x00, 0x05]);
    vm.step_no_pipeline();
    assert_eq!(vm.registers[1], 0x05);
}

#[test]
fn test_sb() {
    // SB x0, 4(x0)
    let mut vm = VM::new(vec![0x23, 0x02, 0x00, 0x00, 0x05]);
    vm.step_no_pipeline();
    assert_eq!(vm.memory[4], 0x00);
}

#[test]
fn test_jal() {
    // JAL x1, 8
    // ADDI x2, x0, 42
    // ADDI x3, x0, 99

    let program = vec![
        0xef, 0x00, 0x80, 0x00, // JAL x1, 8
        0x13, 0x01, 0xa0, 0x02, // ADDI x2, x0, 42 (should be skipped)
        0x93, 0x01, 0x30, 0x06, // ADDI x3, x0, 99
    ];

    let mut vm = VM::new(program);
    vm.step_no_pipeline(); // JAL
    vm.step_no_pipeline(); // ADDI x3

    assert_eq!(vm.registers[1], 4); // x1 = return address (pc + 4 before jump)
    assert_eq!(vm.registers[2], 0); // x2 not set (skipped)
    assert_eq!(vm.registers[3], 99); // x3 set by ADDI
}

#[test]
fn test_add() {
    // ADD x1, x2, x3
    let mut vm = VM::new(vec![0xb3, 0x00, 0x31, 0x00]);
    vm.registers[2] = 1;
    vm.registers[3] = 2;
    vm.step_no_pipeline();
    assert_eq!(vm.registers[1], 3);
}

#[test]
fn test_sub() {
    // SUB x8, x9, x10
    let mut vm = VM::new(vec![0x33, 0x84, 0xa4, 0x40]);
    vm.registers[9] = 2;
    vm.registers[10] = 1;
    vm.step_no_pipeline();
    assert_eq!(vm.registers[8], 1);
}

#[test]
fn test_xor() {
    // XOR x8, x9, x10
    let mut vm = VM::new(vec![0x33, 0xc4, 0xa4, 0x00]);
    vm.registers[9] = 0b11111000;
    vm.registers[10] = 0b00011110;
    vm.step_no_pipeline();
    assert_eq!(vm.registers[8], 0b11100110);
}

#[test]
fn test_or() {
    // OR x8, x9, x10
    // 00 a4 e4 33
    let mut vm = VM::new(vec![0x33, 0xe4, 0xa4, 0x00]);
    vm.registers[9] = 0b11111000;
    vm.registers[10] = 0b00011110;
    vm.step_no_pipeline();
    assert_eq!(vm.registers[8], 0b11111110);
}

#[test]
fn test_lui() {
    // LUI x1, 1
    let mut vm = VM::new(vec![0xb7, 0x10, 0x00, 0x00]);
    vm.step_no_pipeline();
    assert_eq!(vm.registers[1], 4096);
}

#[test]
fn test_beq() {
    // BEQ x0, x0, 8
    // ADDI x2, x0, 42
    // ADDI x3, x0, 99

    let program = vec![
        0x63, 0x04, 0x00, 0x00, // BEQ x0, x0, 8
        0x13, 0x01, 0xa0, 0x02, // ADDI x2, x0, 42 (should be skipped)
        0x93, 0x01, 0x30, 0x06, // ADDI x3, x0, 99
    ];

    let mut vm = VM::new(program);
    vm.step_no_pipeline(); // BEQ
    vm.step_no_pipeline(); // ADDI x3

    assert_eq!(vm.registers[2], 0); // x2 not set (skipped)
    assert_eq!(vm.registers[3], 99); // x3 set by ADDI

    // BEQ x0, x1, 8
    // ADDI x2, x0, 42
    // ADDI x3, x0, 99
    let program = vec![
        0x63, 0x04, 0x10, 0x00, // BEQ x0, x1, 8
        0x13, 0x01, 0xa0, 0x02, // ADDI x2, x0, 42 (should NOT be skipped)
        0x93, 0x01, 0x30, 0x06, // ADDI x3, x0, 99
    ];

    let mut vm = VM::new(program);
    vm.registers[1] = 1;
    vm.step_no_pipeline(); // BEQ
    vm.step_no_pipeline(); // ADDI x2
    vm.step_no_pipeline(); // ADDI x3

    assert_eq!(vm.registers[2], 42); // x2 set by ADDI
    assert_eq!(vm.registers[3], 99); // x3 set by ADDI
}

#[test]
fn test_bne() {
    // BNE x0, x1, 8
    // ADDI x2, x0, 42
    // ADDI x3, x0, 99

    let program = vec![
        0x63, 0x14, 0x10, 0x00, 0x13, 0x01, 0xa0, 0x02, 0x93, 0x01, 0x30, 0x06,
    ];

    let mut vm = VM::new(program);
    vm.registers[1] = 1; // make the condition false
    vm.step_no_pipeline();
    vm.step_no_pipeline();
    assert_eq!(vm.registers[2], 0); // x2 not set (skipped)
    assert_eq!(vm.registers[3], 99); // x3 set by ADDI
}

// === EARLY SINGLE-STEP DRIVER SCENARIOS ==============

#[test]
fn test_extract_jtype() {
    // JAL x1, 8
    // 0 0000000100 0 00000000 00001 1101111
    let instruction = 0b00000000100000000000000011101111;
    let result = extract_jtype(instruction);
    assert!(matches!(result, OperandsFormat::Jtype { rd: 1, imm: 8 }));
}

#[test]
fn vm_test_addi() {
    // ADDI x1, x0, 5
    // 000000000101 00000 000 00001 0010011
    let mut vm = VM::new(vec![0x93, 0x00, 0x50, 0x00]);
    vm.step_no_pipeline();
    assert_eq!(vm.registers[1], 5);
}

#[test]
fn vm_test_lb() {
    // LB x1, 4(x0)
    // 000000000100 00000 000 00001 0000011
    let mut vm = VM::new(vec![0x83, 0x00, 0x40, 0x00, 0x05]);
    vm.step_no_pipeline();
    assert_eq!(vm.registers[1], 0x05);
}

#[test]
fn vm_test_sb() {
    // SB x0, 4(x0)
    // 00000000 0000 00000 000 00100 0100011
    let mut vm = VM::new(vec![0x23, 0x02, 0x00, 0x00, 0x05]);
    vm.step_no_pipeline();
    assert_eq!(vm.memory[4], 0x00);
}

#[test]
fn vm_test_jal() {
    // JAL x1, 8
    // 00000000 10000000 00000000 11101111
    // ADDI x2, x0, 42
    // 00000010 10100000 00000001 00010011
    // ADDI x3, x0, 99
    // 00000110 00110000 00000001 10010011

    let program = vec![
        0xef, 0x00, 0x80, 0x00, // JAL x1, 8
        0x13, 0x01, 0xa0, 0x02, // ADDI x2, x0, 42 (should be skipped)
        0x93, 0x01, 0x30, 0x06, // ADDI x3, x0, 99
    ];

    let mut vm = VM::new(program);
    vm.step_no_pipeline(); // JAL
    vm.step_no_pipeline(); // ADDI x3

    assert_eq!(vm.registers[1], 4); // x1 = return address (pc + 4 before jump)
    assert_eq!(vm.registers[2], 0); // x2 not set (skipped)
    assert_eq!(vm.registers[3], 99); // x3 set by ADDI
}

#[test]
fn test_extract_jtype_negative() {
    // JAL x3, -4
    let result = extract_jtype(0xffdff1ef);
    assert!(matches!(result, OperandsFormat::Jtype { rd: 3, imm: -4 }));
    // JAL x0 with only the immediate's sign bit set: sign-extended from
    // bit 20, the offset is the most negative one.
    let result = extract_jtype(0x8000006f);
    assert!(matches!(result, OperandsFormat::Jtype { rd: 0, imm: -1048576 }));
}

#[test]
fn test_jal_backward() {
    // JAL x1, 8
    // ADDI x2, x0, 42
    // JAL x3, -4
    // The second jump goes backward to the ADDI, which then runs.
    let program = vec![
        0xef, 0x00, 0x80, 0x00, // JAL x1, 8
        0x13, 0x01, 0xa0, 0x02, // ADDI x2, x0, 42
        0xef, 0xf1, 0xdf, 0xff, // JAL x3, -4
    ];

    let mut vm = VM::new(program);
    vm.step_no_pipeline(); // JAL x1, 8 -> address 8
    vm.step_no_pipeline(); // JAL x3, -4 -> address 4
    vm.step_no_pipeline(); // ADDI x2, x0, 42

    assert_eq!(vm.registers[1], 4); // link of the forward jump
    assert_eq!(vm.registers[3], 12); // link of the backward jump
    assert_eq!(vm.registers[2], 42); // reached through the backward jump
}
