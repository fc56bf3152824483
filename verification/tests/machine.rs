use tgs::op_code::OpCode;
use tgs::program::Program;
use tgs::registers::Register;
use tgs::tgs::Tgs;

const ALL: [Register; 16] = [
    Register::R0,
    Register::R1,
    Register::R2,
    Register::R3,
    Register::R4,
    Register::R5,
    Register::R6,
    Register::R7,
    Register::BA,
    Register::BB,
    Register::D0,
    Register::D1,
    Register::D2,
    Register::D3,
    Register::PC,
    Register::CR,
];

fn snapshot(machine: &Tgs) -> Vec<u8> {
    ALL.iter().map(|register| machine.register(*register)).collect()
}

fn machine_with(register: Register, value: u8) -> Tgs {
    let mut machine = Tgs::new();
    *machine.register_mut_ref(register) = value;
    machine
}

#[test]
fn new_machine_is_all_zero() {
    assert_eq!(snapshot(&Tgs::new()), vec![0u8; 16]);
    assert_eq!(snapshot(&Tgs::default()), vec![0u8; 16]);
}

#[test]
fn a_written_register_reads_back_and_no_other_changes() {
    for (i, register) in ALL.iter().enumerate() {
        let machine = machine_with(*register, 0xA5);
        let mut want = vec![0u8; 16];
        want[i] = 0xA5;
        assert_eq!(snapshot(&machine), want);
        assert_eq!(*machine.register_ref(*register), 0xA5);
    }
}

#[test]
fn display_is_the_four_output_registers() {
    let mut machine = Tgs::new();
    *machine.register_mut_ref(Register::D0) = 1;
    *machine.register_mut_ref(Register::D1) = 2;
    *machine.register_mut_ref(Register::D2) = 3;
    *machine.register_mut_ref(Register::D3) = 4;
    assert_eq!(machine.tgs_display(), [1, 2, 3, 4]);
}

#[test]
fn immediate_arithmetic_wraps_for_every_pair() {
    for register in ALL {
        if register == Register::PC {
            continue;
        }
        for a in 0..=255u8 {
            for b in 0..=255u8 {
                let mut machine = machine_with(register, a);
                machine.process_instruction(OpCode::ADDV(register, b));
                assert_eq!(machine.register(register) as u16, (a as u16 + b as u16) % 256);
                let mut machine = machine_with(register, a);
                machine.process_instruction(OpCode::SUBV(register, b));
                assert_eq!(machine.register(register) as u16, (256 + a as u16 - b as u16) % 256);
            }
        }
    }
}

#[test]
fn immediate_bitwise_for_every_pair() {
    for a in 0..=255u8 {
        for b in 0..=255u8 {
            let mut machine = machine_with(Register::R4, a);
            machine.process_instruction(OpCode::ANDV(Register::R4, b));
            assert_eq!(machine.register(Register::R4), a & b);
            let mut machine = machine_with(Register::R4, a);
            machine.process_instruction(OpCode::ORV(Register::R4, b));
            assert_eq!(machine.register(Register::R4), a | b);
            let mut machine = machine_with(Register::R4, a);
            machine.process_instruction(OpCode::XORV(Register::R4, b));
            assert_eq!(machine.register(Register::R4), a ^ b);
        }
    }
}

#[test]
fn add_and_sub_exact_values() {
    let mut machine = machine_with(Register::R0, 200);
    machine.process_instruction(OpCode::ADDV(Register::R0, 100));
    assert_eq!(machine.register(Register::R0), 44);
    machine.process_instruction(OpCode::SUBV(Register::R0, 45));
    assert_eq!(machine.register(Register::R0), 255);
    machine.process_instruction(OpCode::ADDV(Register::R0, 1));
    assert_eq!(machine.register(Register::R0), 0);
    machine.process_instruction(OpCode::SUBV(Register::R0, 1));
    assert_eq!(machine.register(Register::R0), 255);
    assert_eq!(machine.register(Register::PC), 4);
}

#[test]
fn register_forms_read_the_source_register() {
    let mut machine = Tgs::new();
    *machine.register_mut_ref(Register::R1) = 0xF0;
    *machine.register_mut_ref(Register::R2) = 0x3C;
    machine.process_instruction(OpCode::ADD(Register::R1, Register::R2));
    assert_eq!(machine.register(Register::R1), 0x2C);
    machine.process_instruction(OpCode::SUB(Register::R1, Register::R2));
    assert_eq!(machine.register(Register::R1), 0xF0);
    machine.process_instruction(OpCode::AND(Register::R1, Register::R2));
    assert_eq!(machine.register(Register::R1), 0x30);
    machine.process_instruction(OpCode::OR(Register::R1, Register::R2));
    assert_eq!(machine.register(Register::R1), 0x3C);
    machine.process_instruction(OpCode::XOR(Register::R1, Register::R2));
    assert_eq!(machine.register(Register::R1), 0x00);
    machine.process_instruction(OpCode::MOV(Register::R1, Register::R2));
    assert_eq!(machine.register(Register::R1), 0x3C);
    assert_eq!(machine.register(Register::R2), 0x3C);
    assert_eq!(machine.register(Register::PC), 6);
    assert_eq!(machine.register(Register::CR), 0);
}

#[test]
fn a_register_can_be_its_own_source() {
    let mut machine = machine_with(Register::R0, 0x81);
    machine.process_instruction(OpCode::ADD(Register::R0, Register::R0));
    assert_eq!(machine.register(Register::R0), 0x02);
    machine.process_instruction(OpCode::XOR(Register::R0, Register::R0));
    assert_eq!(machine.register(Register::R0), 0x00);
}

#[test]
fn shifts_drop_the_bits_that_leave() {
    let mut machine = machine_with(Register::R0, 0b1000_0011);
    machine.process_instruction(OpCode::LSHV(Register::R0, 1));
    assert_eq!(machine.register(Register::R0), 0b0000_0110);
    machine.process_instruction(OpCode::LSHV(Register::R0, 6));
    assert_eq!(machine.register(Register::R0), 0b1000_0000);
    machine.process_instruction(OpCode::RSHV(Register::R0, 7));
    assert_eq!(machine.register(Register::R0), 0b0000_0001);
    machine.process_instruction(OpCode::RSHV(Register::R0, 1));
    assert_eq!(machine.register(Register::R0), 0);
}

#[test]
fn shift_amount_counts_modulo_eight() {
    for amount in [0u8, 8, 16, 248] {
        let mut machine = machine_with(Register::R0, 0b1010_0101);
        machine.process_instruction(OpCode::LSHV(Register::R0, amount));
        assert_eq!(machine.register(Register::R0), 0b1010_0101);
        machine.process_instruction(OpCode::RSHV(Register::R0, amount));
        assert_eq!(machine.register(Register::R0), 0b1010_0101);
    }
    for amount in [1u8, 9, 17, 249] {
        let mut machine = machine_with(Register::R0, 0b1010_0101);
        machine.process_instruction(OpCode::LSHV(Register::R0, amount));
        assert_eq!(machine.register(Register::R0), 0b0100_1010);
        let mut machine = machine_with(Register::R0, 0b1010_0101);
        machine.process_instruction(OpCode::RSHV(Register::R0, amount));
        assert_eq!(machine.register(Register::R0), 0b0101_0010);
    }
    let mut machine = machine_with(Register::R0, 0xFF);
    machine.process_instruction(OpCode::LSHV(Register::R0, 255));
    assert_eq!(machine.register(Register::R0), 0x80);
    let mut machine = machine_with(Register::R0, 0xFF);
    machine.process_instruction(OpCode::RSHV(Register::R0, 255));
    assert_eq!(machine.register(Register::R0), 0x01);
}

#[test]
fn shifts_for_every_value_and_amount() {
    for v in 0..=255u8 {
        for amount in 0..=255u8 {
            let mut machine = machine_with(Register::D0, v);
            *machine.register_mut_ref(Register::R1) = amount;
            machine.process_instruction(OpCode::LSH(Register::D0, Register::R1));
            assert_eq!(machine.register(Register::D0) as u32, ((v as u32) << (amount % 8)) % 256);
            let mut machine = machine_with(Register::D0, v);
            *machine.register_mut_ref(Register::R1) = amount;
            machine.process_instruction(OpCode::RSH(Register::D0, Register::R1));
            assert_eq!(machine.register(Register::D0), v >> (amount % 8));
        }
    }
}

#[test]
fn moves_leave_the_flag_alone() {
    let mut machine = machine_with(Register::CR, 0x7F);
    machine.process_instruction(OpCode::MOVV(Register::D1, 6));
    machine.process_instruction(OpCode::MOV(Register::D2, Register::D1));
    assert_eq!(machine.register(Register::D1), 6);
    assert_eq!(machine.register(Register::D2), 6);
    assert_eq!(machine.register(Register::CR), 0x7F);
    assert_eq!(machine.register(Register::PC), 2);
}

#[test]
fn compare_stores_the_wrapped_difference() {
    let mut machine = machine_with(Register::R0, 5);
    machine.process_instruction(OpCode::CMPV(Register::R0, 7));
    assert_eq!(machine.register(Register::CR), 0xFE);
    assert_eq!(machine.register(Register::R0), 5);
    assert_eq!(machine.register(Register::PC), 1);
    *machine.register_mut_ref(Register::R1) = 5;
    machine.process_instruction(OpCode::CMP(Register::R0, Register::R1));
    assert_eq!(machine.register(Register::CR), 0);
    *machine.register_mut_ref(Register::R1) = 2;
    machine.process_instruction(OpCode::CMP(Register::R0, Register::R1));
    assert_eq!(machine.register(Register::CR), 3);
    assert_eq!(machine.register(Register::PC), 3);
}

fn taken(a: u8, b: u8, branch: OpCode) -> bool {
    let mut machine = machine_with(Register::R0, a);
    *machine.register_mut_ref(Register::PC) = 10;
    machine.process_instruction(OpCode::CMPV(Register::R0, b));
    assert_eq!(machine.register(Register::PC), 11);
    let before = snapshot(&machine);
    machine.process_instruction(branch);
    let after = snapshot(&machine);
    for (i, register) in ALL.iter().enumerate() {
        if *register != Register::PC {
            assert_eq!(before[i], after[i]);
        }
    }
    match machine.register(Register::PC) {
        200 => true,
        12 => false,
        other => panic!("program counter at {other}"),
    }
}

#[test]
fn branches_follow_the_signed_comparison_for_every_pair() {
    for a in 0..=255u8 {
        for b in 0..=255u8 {
            let difference = (a as i8).wrapping_sub(b as i8);
            assert_eq!(taken(a, b, OpCode::BE(200)), a as i8 == b as i8);
            assert_eq!(taken(a, b, OpCode::BNE(200)), a as i8 != b as i8);
            assert_eq!(taken(a, b, OpCode::BG(200)), difference > 0);
            assert_eq!(taken(a, b, OpCode::BL(200)), difference < 0);
            assert!(taken(a, b, OpCode::BR(200)));
        }
    }
}

#[test]
fn branch_examples() {
    assert!(taken(7, 7, OpCode::BE(200)));
    assert!(!taken(7, 8, OpCode::BE(200)));
    assert!(taken(8, 7, OpCode::BG(200)));
    assert!(!taken(7, 8, OpCode::BG(200)));
    assert!(taken(7, 8, OpCode::BL(200)));
    assert!(!taken(7, 7, OpCode::BL(200)));
    assert!(!taken(7, 7, OpCode::BG(200)));
    // 0xFF is -1 as a signed byte, so it is less than 1.
    assert!(taken(0xFF, 1, OpCode::BL(200)));
    assert!(taken(1, 0xFF, OpCode::BG(200)));
    // The difference itself wraps: 127 - (-128) is -1 in eight bits.
    assert!(taken(0x7F, 0x80, OpCode::BL(200)));
    assert!(taken(0x80, 0x7F, OpCode::BG(200)));
}

#[test]
fn register_compare_then_branch() {
    let mut machine = Tgs::new();
    *machine.register_mut_ref(Register::R2) = 0x90;
    *machine.register_mut_ref(Register::R3) = 0x90;
    machine.process_instruction(OpCode::CMP(Register::R2, Register::R3));
    machine.process_instruction(OpCode::BE(42));
    assert_eq!(machine.register(Register::PC), 42);
    machine.process_instruction(OpCode::BNE(7));
    assert_eq!(machine.register(Register::PC), 43);
}

#[test]
fn program_counter_wraps_from_255_to_0() {
    let mut machine = machine_with(Register::PC, 255);
    machine.process_instruction(OpCode::MOVV(Register::R0, 1));
    assert_eq!(machine.register(Register::PC), 0);
    let mut machine = machine_with(Register::PC, 255);
    machine.process_instruction(OpCode::BE(9));
    assert_eq!(machine.register(Register::PC), 9);
    let mut machine = machine_with(Register::PC, 255);
    machine.process_instruction(OpCode::BNE(9));
    assert_eq!(machine.register(Register::PC), 0);
}

#[test]
fn writing_the_program_counter_is_followed_by_the_increment() {
    let mut machine = machine_with(Register::PC, 10);
    machine.process_instruction(OpCode::ADDV(Register::PC, 5));
    assert_eq!(machine.register(Register::PC), 16);
    machine.process_instruction(OpCode::MOVV(Register::PC, 255));
    assert_eq!(machine.register(Register::PC), 0);
}

#[test]
fn step_runs_the_instruction_under_the_counter() {
    let program = Program::new("p", &[0x61, 0x00, 0x07, 0x50, 0x05, 0x00]).expect("decodes");
    let mut machine = Tgs::new();
    assert!(machine.step(&program));
    assert_eq!(machine.register(Register::R0), 7);
    assert_eq!(machine.register(Register::PC), 1);
    assert!(machine.step(&program));
    assert_eq!(machine.register(Register::PC), 5);
}

#[test]
fn step_past_the_end_does_nothing() {
    let program = Program::new("p", &[0x61, 0x00, 0x07, 0x50, 0x05, 0x00]).expect("decodes");
    let mut machine = machine_with(Register::PC, 2);
    *machine.register_mut_ref(Register::R5) = 9;
    let before = snapshot(&machine);
    assert!(!machine.step(&program));
    assert_eq!(snapshot(&machine), before);
    *machine.register_mut_ref(Register::PC) = 255;
    assert!(!machine.step(&program));
    assert_eq!(machine.register(Register::PC), 255);
}

fn demo() -> Program {
    let bytes: [u8; 36] = [
        0x60, 0x00, 0x10, 0x10, 0x00, 0x11, 0x41, 0x00, 0x00, 0x54, 0x09, 0x00, 0x61, 0x12, 0x00,
        0x61, 0x13, 0x00, 0x61, 0x14, 0x00, 0x61, 0x15, 0x00, 0x50, 0x00, 0x00, 0x61, 0x13, 0x06,
        0x61, 0x14, 0x74, 0x50, 0x00, 0x00,
    ];
    Program::new("demo", &bytes).expect("decodes")
}

#[test]
fn demo_clears_the_display_while_no_button_is_down() {
    let program = demo();
    let mut machine = Tgs::new();
    *machine.register_mut_ref(Register::D1) = 6;
    *machine.register_mut_ref(Register::D2) = 116;
    for _ in 0..9 {
        assert!(machine.step(&program));
    }
    assert_eq!(machine.tgs_display(), [0, 0, 0, 0]);
    assert_eq!(machine.register(Register::PC), 0);
}

#[test]
fn demo_lights_the_display_while_a_button_is_down() {
    let program = demo();
    let mut machine = Tgs::new();
    *machine.register_mut_ref(Register::BA) = 1;
    for _ in 0..7 {
        assert!(machine.step(&program));
    }
    assert_eq!(machine.tgs_display(), [0, 6, 116, 0]);
    assert_eq!(machine.register(Register::R0), 1);
    assert_eq!(machine.register(Register::CR), 1);
    assert_eq!(machine.register(Register::PC), 0);
}
