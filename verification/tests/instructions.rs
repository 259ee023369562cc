use mos6502::cpu::{AddressingMode, CpuError, RunState, CPU, MEM};
use mos6502::flags::CPUFlags;

fn ran(program: Vec<u8>) -> CPU {
    let mut cpu = CPU::new();
    assert_eq!(cpu.load_and_run(program), Ok(()));
    cpu
}

#[test]
fn new_processor_is_zeroed() {
    let cpu = CPU::new();
    assert_eq!(cpu.register_a, 0);
    assert_eq!(cpu.register_x, 0);
    assert_eq!(cpu.register_y, 0);
    assert_eq!(cpu.stack_pointer, 0xFD);
    assert_eq!(cpu.program_counter, 0);
    assert_eq!(cpu.status.bits(), 0b0010_0100);
    assert_eq!(cpu.mem_read(0x0000), 0);
    assert_eq!(cpu.mem_read(0x0600), 0);
    assert_eq!(cpu.mem_read(0xFFFF), 0);
}

#[test]
fn zero_and_negative_follow_the_result() {
    let cpu = ran(vec![0xA9, 0x00, 0x00]);
    assert!(cpu.status.contains(CPUFlags::ZERO));
    assert!(!cpu.status.contains(CPUFlags::NEGATIVE));

    let cpu = ran(vec![0xA9, 0x80, 0x00]);
    assert!(!cpu.status.contains(CPUFlags::ZERO));
    assert!(cpu.status.contains(CPUFlags::NEGATIVE));

    let cpu = ran(vec![0xA9, 0x7F, 0x00]);
    assert!(!cpu.status.contains(CPUFlags::ZERO));
    assert!(!cpu.status.contains(CPUFlags::NEGATIVE));
}

#[test]
fn update_zero_and_negative_flags_for_every_byte() {
    let mut cpu = CPU::new();
    for r in 0..=255u8 {
        cpu.status = CPUFlags::from_bits_truncate(0b0110_1101);
        cpu.update_zero_and_negative_flags(r);
        assert_eq!(cpu.status.contains(CPUFlags::ZERO), r == 0);
        assert_eq!(cpu.status.contains(CPUFlags::NEGATIVE), r & 0x80 != 0);
        assert_eq!(cpu.status.bits() & 0b0111_1101, 0b0110_1101);
    }
}

#[test]
fn ldx_sets_flags_from_x() {
    // Y is zero and X is loaded with a negative value: the flags tell of X.
    let cpu = ran(vec![0xA0, 0x00, 0xA2, 0x80, 0x00]);
    assert_eq!(cpu.register_x, 0x80);
    assert_eq!(cpu.register_y, 0x00);
    assert!(cpu.status.contains(CPUFlags::NEGATIVE));
    assert!(!cpu.status.contains(CPUFlags::ZERO));
    assert_eq!(cpu.status.bits(), 0xA4);

    // And the other way round: Y is negative and X is loaded with zero.
    let cpu = ran(vec![0xA0, 0x80, 0xA2, 0x00, 0x00]);
    assert!(cpu.status.contains(CPUFlags::ZERO));
    assert!(!cpu.status.contains(CPUFlags::NEGATIVE));
}

#[test]
fn ldy_loads_and_sets_flags() {
    let cpu = ran(vec![0xA0, 0xF0, 0x00]);
    assert_eq!(cpu.register_y, 0xF0);
    assert_eq!(cpu.status.bits(), 0xA4);
}

#[test]
fn adc_signed_overflow() {
    let cpu = ran(vec![0xA9, 0x50, 0x69, 0x50, 0x00]);
    assert_eq!(cpu.register_a, 0xA0);
    assert!(!cpu.status.contains(CPUFlags::CARRY));
    assert!(cpu.status.contains(CPUFlags::OVERFLOW));
    assert!(cpu.status.contains(CPUFlags::NEGATIVE));
    assert!(!cpu.status.contains(CPUFlags::ZERO));
    assert_eq!(cpu.status.bits(), 0xE4);
}

#[test]
fn adc_carry_in_and_out() {
    let cpu = ran(vec![0x38, 0xA9, 0xFF, 0x69, 0x00, 0x00]);
    assert_eq!(cpu.register_a, 0x00);
    assert!(cpu.status.contains(CPUFlags::CARRY));
    assert!(cpu.status.contains(CPUFlags::ZERO));
    assert!(!cpu.status.contains(CPUFlags::OVERFLOW));
    assert_eq!(cpu.status.bits(), 0x27);
}

#[test]
fn adc_for_every_accumulator_operand_and_carry() {
    let mut cpu = CPU::new();
    for a in 0..=255u8 {
        for b in 0..=255u8 {
            for c in 0..=1u8 {
                cpu.register_a = a;
                cpu.status = CPUFlags::from_bits_truncate(0b0010_0100 | c);
                cpu.add_to_register_a(b);
                let sum = a as u16 + b as u16 + c as u16;
                let result = (sum % 256) as u8;
                assert_eq!(cpu.register_a, result);
                assert_eq!(cpu.status.contains(CPUFlags::CARRY), sum >= 256);
                assert_eq!(
                    cpu.status.contains(CPUFlags::OVERFLOW),
                    (b ^ result) & (result ^ a) & 0x80 != 0
                );
                assert_eq!(cpu.status.contains(CPUFlags::ZERO), result == 0);
                assert_eq!(cpu.status.contains(CPUFlags::NEGATIVE), result >= 0x80);
            }
        }
    }
}

#[test]
fn sbc_with_borrow() {
    let cpu = ran(vec![0x38, 0xA9, 0x50, 0xE9, 0xF0, 0x00]);
    assert_eq!(cpu.register_a, 0x60);
    assert!(!cpu.status.contains(CPUFlags::CARRY));
    assert!(!cpu.status.contains(CPUFlags::OVERFLOW));
    assert_eq!(cpu.status.bits(), 0x24);

    // 0x50 - 0xB0 = 0xA0: the sign is wrong for the operands.
    let cpu = ran(vec![0x38, 0xA9, 0x50, 0xE9, 0xB0, 0x00]);
    assert_eq!(cpu.register_a, 0xA0);
    assert!(!cpu.status.contains(CPUFlags::CARRY));
    assert!(cpu.status.contains(CPUFlags::OVERFLOW));
    assert!(cpu.status.contains(CPUFlags::NEGATIVE));

    // With the carry clear one more is taken.
    let cpu = ran(vec![0x18, 0xA9, 0x05, 0xE9, 0x03, 0x00]);
    assert_eq!(cpu.register_a, 0x01);
    assert!(cpu.status.contains(CPUFlags::CARRY));
}

#[test]
fn sbc_is_adc_of_the_complement() {
    let mut sub = CPU::new();
    let mut add = CPU::new();
    for a in 0..=255u8 {
        for b in 0..=255u8 {
            for c in 0..=1u8 {
                sub.register_a = a;
                sub.status = CPUFlags::from_bits_truncate(0b0010_0100 | c);
                sub.program_counter = 0x0010;
                sub.mem_write(0x0010, b);
                sub.sbc(&AddressingMode::Immediate);

                add.register_a = a;
                add.status = CPUFlags::from_bits_truncate(0b0010_0100 | c);
                add.program_counter = 0x0010;
                add.mem_write(0x0010, 0u8.wrapping_sub(b).wrapping_sub(1));
                add.adc(&AddressingMode::Immediate);

                assert_eq!(sub.register_a, add.register_a);
                assert_eq!(sub.status.bits(), add.status.bits());
            }
        }
    }
}

#[test]
fn logical_instructions() {
    let cpu = ran(vec![0xA9, 0b1100_1100, 0x29, 0b1010_1010, 0x00]);
    assert_eq!(cpu.register_a, 0b1000_1000);
    assert!(cpu.status.contains(CPUFlags::NEGATIVE));

    let cpu = ran(vec![0xA9, 0b1100_1100, 0x49, 0b1010_1010, 0x00]);
    assert_eq!(cpu.register_a, 0b0110_0110);
    assert!(!cpu.status.contains(CPUFlags::NEGATIVE));

    let cpu = ran(vec![0xA9, 0b1100_1100, 0x09, 0b1010_1010, 0x00]);
    assert_eq!(cpu.register_a, 0b1110_1110);

    let cpu = ran(vec![0xA9, 0x0F, 0x29, 0xF0, 0x00]);
    assert_eq!(cpu.register_a, 0);
    assert!(cpu.status.contains(CPUFlags::ZERO));
}

#[test]
fn shifts_on_the_accumulator() {
    // ASL
    let cpu = ran(vec![0xA9, 0x81, 0x0A, 0x00]);
    assert_eq!(cpu.register_a, 0x02);
    assert!(cpu.status.contains(CPUFlags::CARRY));
    // LSR
    let cpu = ran(vec![0xA9, 0x01, 0x4A, 0x00]);
    assert_eq!(cpu.register_a, 0x00);
    assert!(cpu.status.contains(CPUFlags::CARRY));
    assert!(cpu.status.contains(CPUFlags::ZERO));
    // ROL with the carry set
    let cpu = ran(vec![0x38, 0xA9, 0x80, 0x2A, 0x00]);
    assert_eq!(cpu.register_a, 0x01);
    assert!(cpu.status.contains(CPUFlags::CARRY));
    // ROL with the carry clear
    let cpu = ran(vec![0x18, 0xA9, 0x40, 0x2A, 0x00]);
    assert_eq!(cpu.register_a, 0x80);
    assert!(!cpu.status.contains(CPUFlags::CARRY));
    assert!(cpu.status.contains(CPUFlags::NEGATIVE));
    // ROR with the carry set
    let cpu = ran(vec![0x38, 0xA9, 0x01, 0x6A, 0x00]);
    assert_eq!(cpu.register_a, 0x80);
    assert!(cpu.status.contains(CPUFlags::CARRY));
    assert!(cpu.status.contains(CPUFlags::NEGATIVE));
    // ROR with the carry clear
    let cpu = ran(vec![0x18, 0xA9, 0x02, 0x6A, 0x00]);
    assert_eq!(cpu.register_a, 0x01);
    assert!(!cpu.status.contains(CPUFlags::CARRY));
}

#[test]
fn shifts_on_memory() {
    let mut cpu = CPU::new();
    cpu.mem_write(0x10, 0xC1);
    cpu.program_counter = 0x20;
    cpu.mem_write(0x20, 0x10);
    assert_eq!(cpu.asl(&AddressingMode::ZeroPage), 0x82);
    assert_eq!(cpu.mem_read(0x10), 0x82);
    assert!(cpu.status.contains(CPUFlags::CARRY));
    assert!(cpu.status.contains(CPUFlags::NEGATIVE));

    assert_eq!(cpu.lsr(&AddressingMode::ZeroPage), 0x41);
    assert_eq!(cpu.mem_read(0x10), 0x41);
    assert!(!cpu.status.contains(CPUFlags::CARRY));

    cpu.status.insert(CPUFlags::CARRY);
    assert_eq!(cpu.rol(&AddressingMode::ZeroPage), 0x83);
    assert!(!cpu.status.contains(CPUFlags::CARRY));

    cpu.status.insert(CPUFlags::CARRY);
    assert_eq!(cpu.ror(&AddressingMode::ZeroPage), 0xC1);
    assert_eq!(cpu.mem_read(0x10), 0xC1);
    assert!(cpu.status.contains(CPUFlags::CARRY));
}

#[test]
fn increments_and_decrements_wrap() {
    let mut cpu = CPU::new();
    cpu.mem_write(0x10, 0xFF);
    assert_eq!(cpu.load_and_run(vec![0xE6, 0x10, 0x00]), Ok(()));
    assert_eq!(cpu.mem_read(0x10), 0x00);
    assert!(cpu.status.contains(CPUFlags::ZERO));

    let mut cpu = CPU::new();
    assert_eq!(cpu.load_and_run(vec![0xC6, 0x10, 0x00]), Ok(()));
    assert_eq!(cpu.mem_read(0x10), 0xFF);
    assert!(cpu.status.contains(CPUFlags::NEGATIVE));

    // DEX, DEY from zero; INY to zero
    let cpu = ran(vec![0xCA, 0x88, 0x00]);
    assert_eq!(cpu.register_x, 0xFF);
    assert_eq!(cpu.register_y, 0xFF);
    let cpu = ran(vec![0x88, 0xC8, 0x00]);
    assert_eq!(cpu.register_y, 0x00);
    assert!(cpu.status.contains(CPUFlags::ZERO));
}

#[test]
fn compare_family() {
    let cpu = ran(vec![0xA9, 0x10, 0xC9, 0x10, 0x00]);
    assert_eq!(cpu.status.bits(), 0x27);
    let cpu = ran(vec![0xA9, 0x10, 0xC9, 0x20, 0x00]);
    assert_eq!(cpu.status.bits(), 0xA4);
    let cpu = ran(vec![0xA9, 0x20, 0xC9, 0x10, 0x00]);
    assert_eq!(cpu.status.bits(), 0x25);
    // CPX, CPY
    let cpu = ran(vec![0xA2, 0x05, 0xE0, 0x05, 0x00]);
    assert_eq!(cpu.status.bits(), 0x27);
    let cpu = ran(vec![0xA0, 0x05, 0xC0, 0x06, 0x00]);
    assert_eq!(cpu.status.bits(), 0xA4);
    assert_eq!(cpu.register_y, 0x05);
}

#[test]
fn bit_test_takes_high_bits_of_the_operand() {
    let mut cpu = CPU::new();
    cpu.mem_write(0x10, 0xC0);
    assert_eq!(cpu.load_and_run(vec![0xA9, 0x0F, 0x24, 0x10, 0x00]), Ok(()));
    assert_eq!(cpu.register_a, 0x0F);
    assert_eq!(cpu.status.bits(), 0xE6);

    let mut cpu = CPU::new();
    cpu.mem_write(0x10, 0x3F);
    assert_eq!(cpu.load_and_run(vec![0xA9, 0xFF, 0x24, 0x10, 0x00]), Ok(()));
    // The accumulator is negative, the operand is not: Negative is clear.
    assert_eq!(cpu.status.bits(), 0x24);
}

#[test]
fn stores() {
    let cpu = ran(vec![0xA9, 0x11, 0xA2, 0x22, 0xA0, 0x33, 0x85, 0x10, 0x86, 0x11, 0x84, 0x12, 0x00]);
    assert_eq!(cpu.mem_read(0x10), 0x11);
    assert_eq!(cpu.mem_read(0x11), 0x22);
    assert_eq!(cpu.mem_read(0x12), 0x33);
    // no flag effects: the last load was positive and not zero
    assert_eq!(cpu.status.bits(), 0x24);
}

#[test]
fn transfers() {
    // TAY
    let cpu = ran(vec![0xA9, 0x80, 0xA8, 0x00]);
    assert_eq!(cpu.register_y, 0x80);
    // TXA, TYA
    let cpu = ran(vec![0xA2, 0x07, 0x8A, 0x00]);
    assert_eq!(cpu.register_a, 0x07);
    let cpu = ran(vec![0xA0, 0x09, 0x98, 0x00]);
    assert_eq!(cpu.register_a, 0x09);
    // TSX sets flags from the stack pointer
    let cpu = ran(vec![0xBA, 0x00]);
    assert_eq!(cpu.register_x, 0xFD);
    assert!(cpu.status.contains(CPUFlags::NEGATIVE));
    // TXS sets none: X is zero, and Zero stays clear
    let cpu = ran(vec![0xA9, 0x01, 0x9A, 0x00]);
    assert_eq!(cpu.stack_pointer, 0x00);
    assert!(!cpu.status.contains(CPUFlags::ZERO));
}

#[test]
fn flag_instructions() {
    let cpu = ran(vec![0x38, 0xF8, 0x00]);
    assert_eq!(cpu.status.bits(), 0x24 | 0x01 | 0x08);
    let cpu = ran(vec![0x38, 0xF8, 0x18, 0xD8, 0x58, 0x00]);
    assert_eq!(cpu.status.bits(), 0x20);
    let cpu = ran(vec![0x58, 0x78, 0x00]);
    assert_eq!(cpu.status.bits(), 0x24);
    // CLV after an addition that set Overflow
    let cpu = ran(vec![0xA9, 0x50, 0x69, 0x50, 0xB8, 0x00]);
    assert_eq!(cpu.status.bits(), 0xA4);
}

#[test]
fn stack_round_trip() {
    let mut cpu = CPU::new();
    cpu.stack_push_u16(0xBEEF);
    assert_eq!(cpu.stack_pointer, 0xFB);
    assert_eq!(cpu.mem_read(0x01FD), 0xBE);
    assert_eq!(cpu.mem_read(0x01FC), 0xEF);
    assert_eq!(cpu.stack_pop_u16(), 0xBEEF);
    assert_eq!(cpu.stack_pointer, 0xFD);

    cpu.stack_push(0x42);
    assert_eq!(cpu.stack_pop(), 0x42);
    assert_eq!(cpu.stack_pointer, 0xFD);
}

#[test]
fn stack_pointer_wraps() {
    let mut cpu = CPU::new();
    cpu.stack_pointer = 0x00;
    cpu.stack_push(0x77);
    assert_eq!(cpu.stack_pointer, 0xFF);
    assert_eq!(cpu.mem_read(0x0100), 0x77);
    assert_eq!(cpu.stack_pop(), 0x77);
    assert_eq!(cpu.stack_pointer, 0x00);
}

#[test]
fn status_round_trip_clears_break_and_unused() {
    let mut cpu = CPU::new();
    cpu.status = CPUFlags::from_bits_truncate(0xFF);
    cpu.php();
    assert_eq!(cpu.status.bits(), 0xFF);
    assert_eq!(cpu.mem_read(0x01FD), 0xFF);
    cpu.status = CPUFlags::from_bits_truncate(0x00);
    cpu.plp();
    assert_eq!(cpu.status.bits(), 0xCF);
    assert_eq!(cpu.stack_pointer, 0xFD);

    for bits in 0..=255u8 {
        cpu.status = CPUFlags::from_bits_truncate(bits);
        cpu.php();
        assert_eq!(cpu.mem_read(0x01FD), bits | 0x30);
        cpu.plp();
        assert_eq!(cpu.status.bits(), bits & 0xCF);
    }
}

#[test]
fn pha_and_pla() {
    let cpu = ran(vec![0xA9, 0x80, 0x48, 0xA9, 0x01, 0x68, 0x00]);
    assert_eq!(cpu.register_a, 0x80);
    assert!(cpu.status.contains(CPUFlags::NEGATIVE));
    assert_eq!(cpu.stack_pointer, 0xFD);
    assert_eq!(cpu.mem_read(0x01FD), 0x80);
}

#[test]
fn php_and_plp_in_a_program() {
    // SEC; PHP; CLC; PLP
    let cpu = ran(vec![0x38, 0x08, 0x18, 0x28, 0x00]);
    assert_eq!(cpu.mem_read(0x01FD), 0x35);
    assert_eq!(cpu.status.bits(), 0x05);
}

#[test]
fn indirect_jump_wraps_within_the_page() {
    let mut cpu = CPU::new();
    cpu.mem_write(0x30FF, 0x80);
    cpu.mem_write(0x3000, 0x40);
    cpu.mem_write(0x3100, 0x50);
    assert_eq!(cpu.load_and_run(vec![0x6C, 0xFF, 0x30]), Ok(()));
    // The jump went to 0x4080, where the halt instruction was fetched.
    assert_eq!(cpu.program_counter, 0x4081);

    let mut cpu = CPU::new();
    cpu.mem_write(0x30FF, 0x80);
    cpu.mem_write(0x3000, 0x40);
    cpu.mem_write(0x3100, 0x50);
    cpu.program_counter = 0x0700;
    cpu.mem_write_u16(0x0700, 0x30FF);
    cpu.jmp_indirect();
    assert_eq!(cpu.program_counter, 0x4080);
}

#[test]
fn indirect_jump_inside_a_page() {
    let mut cpu = CPU::new();
    cpu.mem_write(0x3010, 0x34);
    cpu.mem_write(0x3011, 0x12);
    assert_eq!(cpu.load_and_run(vec![0x6C, 0x10, 0x30]), Ok(()));
    assert_eq!(cpu.program_counter, 0x1235);
}

#[test]
fn absolute_jump() {
    let mut cpu = CPU::new();
    cpu.mem_write(0x1234, 0xE8);
    assert_eq!(cpu.load_and_run(vec![0x4C, 0x34, 0x12]), Ok(()));
    assert_eq!(cpu.register_x, 1);
    assert_eq!(cpu.program_counter, 0x1236);
}

#[test]
fn call_and_return() {
    // JSR $0605; INX; BRK; INY; RTS
    let cpu = ran(vec![0x20, 0x05, 0x06, 0xE8, 0x00, 0xC8, 0x60]);
    assert_eq!(cpu.register_x, 1);
    assert_eq!(cpu.register_y, 1);
    assert_eq!(cpu.stack_pointer, 0xFD);
    assert_eq!(cpu.mem_read(0x01FD), 0x06);
    assert_eq!(cpu.mem_read(0x01FC), 0x02);
    assert_eq!(cpu.program_counter, 0x0605);
}

#[test]
fn return_from_interrupt() {
    let mut cpu = CPU::new();
    cpu.load(vec![0x40]);
    cpu.reset();
    cpu.stack_push_u16(0x1234);
    cpu.stack_push(0xDF);
    assert_eq!(cpu.run(), Ok(()));
    assert_eq!(cpu.status.bits(), 0xEF);
    assert_eq!(cpu.stack_pointer, 0xFD);
    assert_eq!(cpu.program_counter, 0x1235);
}

#[test]
fn branch_backwards() {
    // LDX #3; DEX; BNE -3; BRK
    let cpu = ran(vec![0xA2, 0x03, 0xCA, 0xD0, 0xFD, 0x00]);
    assert_eq!(cpu.register_x, 0);
    assert!(cpu.status.contains(CPUFlags::ZERO));
    assert_eq!(cpu.program_counter, 0x0606);
}

#[test]
fn branch_forwards_and_not_taken() {
    // CLC; BCC +1; INX; INY; BRK
    let cpu = ran(vec![0x18, 0x90, 0x01, 0xE8, 0xC8, 0x00]);
    assert_eq!(cpu.register_x, 0);
    assert_eq!(cpu.register_y, 1);
    // SEC; BCC +1; INX; INY; BRK
    let cpu = ran(vec![0x38, 0x90, 0x01, 0xE8, 0xC8, 0x00]);
    assert_eq!(cpu.register_x, 1);
    assert_eq!(cpu.register_y, 1);
}

#[test]
fn every_branch_condition() {
    // each program: set up the flag; branch +1 over INX; BRK
    let taken: Vec<Vec<u8>> = vec![
        vec![0x38, 0xB0, 0x01, 0xE8, 0x00],       // SEC; BCS
        vec![0x18, 0x90, 0x01, 0xE8, 0x00],       // CLC; BCC
        vec![0xA9, 0x00, 0xF0, 0x01, 0xE8, 0x00], // LDA #0; BEQ
        vec![0xA9, 0x01, 0xD0, 0x01, 0xE8, 0x00], // LDA #1; BNE
        vec![0xA9, 0x80, 0x30, 0x01, 0xE8, 0x00], // LDA #$80; BMI
        vec![0xA9, 0x01, 0x10, 0x01, 0xE8, 0x00], // LDA #1; BPL
        vec![0xB8, 0x50, 0x01, 0xE8, 0x00],       // CLV; BVC
        vec![0xA9, 0x50, 0x69, 0x50, 0x70, 0x01, 0xE8, 0x00], // overflow; BVS
    ];
    for program in taken {
        assert_eq!(ran(program).register_x, 0);
    }
    let not_taken: Vec<Vec<u8>> = vec![
        vec![0x18, 0xB0, 0x01, 0xE8, 0x00],
        vec![0x38, 0x90, 0x01, 0xE8, 0x00],
        vec![0xA9, 0x01, 0xF0, 0x01, 0xE8, 0x00],
        vec![0xA9, 0x00, 0xD0, 0x01, 0xE8, 0x00],
        vec![0xA9, 0x01, 0x30, 0x01, 0xE8, 0x00],
        vec![0xA9, 0x80, 0x10, 0x01, 0xE8, 0x00],
        vec![0xA9, 0x50, 0x69, 0x50, 0x50, 0x01, 0xE8, 0x00],
        vec![0xB8, 0x70, 0x01, 0xE8, 0x00],
    ];
    for program in not_taken {
        assert_eq!(ran(program).register_x, 1);
    }
}

#[test]
fn branch_target_wraps_at_sixteen_bits() {
    let mut cpu = CPU::new();
    cpu.program_counter = 0xFFFF;
    cpu.mem_write(0xFFFF, 0x10);
    cpu.branch(true);
    assert_eq!(cpu.program_counter, 0x0010);

    cpu.program_counter = 0x0000;
    cpu.mem_write(0x0000, 0x80);
    cpu.branch(true);
    assert_eq!(cpu.program_counter, 0xFF81);

    cpu.program_counter = 0x0000;
    cpu.branch(false);
    assert_eq!(cpu.program_counter, 0x0000);
}

#[test]
fn operand_addresses() {
    let mut cpu = CPU::new();
    cpu.program_counter = 0x0200;
    cpu.register_x = 0x20;
    cpu.register_y = 0x30;
    cpu.mem_write(0x0200, 0xF0);
    cpu.mem_write(0x0201, 0xFF);
    assert_eq!(cpu.get_operand_address(&AddressingMode::Immediate), 0x0200);
    assert_eq!(cpu.get_operand_address(&AddressingMode::ZeroPage), 0x00F0);
    assert_eq!(cpu.get_operand_address(&AddressingMode::ZeroPage_X), 0x0010);
    assert_eq!(cpu.get_operand_address(&AddressingMode::ZeroPage_Y), 0x0020);
    assert_eq!(cpu.get_operand_address(&AddressingMode::Absolute), 0xFFF0);
    assert_eq!(cpu.get_operand_address(&AddressingMode::Absolute_X), 0x0010);
    assert_eq!(cpu.get_operand_address(&AddressingMode::Absolute_Y), 0x0020);
}

#[test]
fn indirect_operand_addresses_wrap_in_page_zero() {
    let mut cpu = CPU::new();
    cpu.program_counter = 0x0200;
    cpu.mem_write(0x0200, 0xFE);
    cpu.register_x = 0x01;
    cpu.register_y = 0x10;
    cpu.mem_write(0x00FF, 0x34);
    cpu.mem_write(0x0000, 0x12);
    cpu.mem_write(0x0100, 0x99);
    // pointer 0xFE + X = 0xFF: low byte at 0xFF, high byte at 0x00
    assert_eq!(cpu.get_operand_address(&AddressingMode::Indirect_X), 0x1234);

    cpu.mem_write(0x0200, 0xFF);
    // pointer 0xFF: the same two bytes, then Y is added
    assert_eq!(cpu.get_operand_address(&AddressingMode::Indirect_Y), 0x1244);

    cpu.mem_write(0x00FF, 0xF8);
    cpu.mem_write(0x0000, 0xFF);
    assert_eq!(cpu.get_operand_address(&AddressingMode::Indirect_Y), 0x0008);

    // pointer 0xFF + X wraps to 0x00
    cpu.mem_write(0x0001, 0x56);
    assert_eq!(cpu.get_operand_address(&AddressingMode::Indirect_X), 0x56FF);
}

#[test]
fn lda_through_every_addressing_mode() {
    let mut cpu = CPU::new();
    cpu.mem_write(0x0042, 0x01);
    cpu.mem_write(0x0047, 0x02);
    cpu.mem_write(0x1234, 0x03);
    cpu.mem_write(0x1239, 0x04);
    cpu.mem_write(0x123A, 0x05);
    cpu.mem_write(0x0080, 0x00);
    cpu.mem_write(0x0081, 0x20);
    cpu.mem_write(0x2000, 0x06);
    cpu.mem_write(0x2006, 0x07);
    // LDX #5; LDY #6; then a load in each mode followed by a store to $F0..
    cpu.load(vec![
        0xA2, 0x05, 0xA0, 0x06, //
        0xA5, 0x42, 0x85, 0xF0, // zero page
        0xB5, 0x42, 0x85, 0xF1, // zero page, X
        0xAD, 0x34, 0x12, 0x85, 0xF2, // absolute
        0xBD, 0x34, 0x12, 0x85, 0xF3, // absolute, X
        0xB9, 0x34, 0x12, 0x85, 0xF4, // absolute, Y
        0xA1, 0x7B, 0x85, 0xF5, // (indirect, X)
        0xB1, 0x80, 0x85, 0xF6, // (indirect), Y
        0x00,
    ]);
    cpu.reset();
    assert_eq!(cpu.run(), Ok(()));
    assert_eq!(cpu.mem_read(0xF0), 0x01);
    assert_eq!(cpu.mem_read(0xF1), 0x02);
    assert_eq!(cpu.mem_read(0xF2), 0x03);
    assert_eq!(cpu.mem_read(0xF3), 0x04);
    assert_eq!(cpu.mem_read(0xF4), 0x05);
    assert_eq!(cpu.mem_read(0xF5), 0x06);
    assert_eq!(cpu.mem_read(0xF6), 0x07);
    assert_eq!(cpu.program_counter, 0x0600 + 36);
}

#[test]
fn nop_only_advances() {
    let cpu = ran(vec![0xEA, 0xEA, 0x00]);
    assert_eq!(cpu.program_counter, 0x0603);
    assert_eq!(cpu.status.bits(), 0x24);
    assert_eq!(cpu.register_a, 0);
}

#[test]
fn step_reports_running_and_halted() {
    let mut cpu = CPU::new();
    cpu.load(vec![0xE8, 0x00]);
    cpu.reset();
    assert_eq!(cpu.step(), Ok(RunState::Running));
    assert_eq!(cpu.program_counter, 0x0601);
    assert_eq!(cpu.step(), Ok(RunState::Halted));
    assert_eq!(cpu.program_counter, 0x0602);
    assert_eq!(cpu.register_x, 1);
}

#[test]
fn program_counter_wraps() {
    let mut cpu = CPU::new();
    cpu.mem_write(0xFFFF, 0xE8);
    cpu.program_counter = 0xFFFF;
    assert_eq!(cpu.step(), Ok(RunState::Running));
    assert_eq!(cpu.program_counter, 0x0000);
    assert_eq!(cpu.register_x, 1);

    // LDA #$42 across the end of the address space
    cpu.mem_write(0xFFFF, 0xA9);
    cpu.mem_write(0x0000, 0x42);
    cpu.program_counter = 0xFFFF;
    assert_eq!(cpu.step(), Ok(RunState::Running));
    assert_eq!(cpu.register_a, 0x42);
    assert_eq!(cpu.program_counter, 0x0001);
}

#[test]
fn jump_to_the_next_byte_counts_as_no_jump() {
    // JMP $0601 leaves the program counter where the fetch put it, so the
    // operand bytes are skipped as after any instruction that does not jump.
    let mut cpu = CPU::new();
    cpu.load(vec![0x4C, 0x01, 0x06, 0x00]);
    cpu.reset();
    assert_eq!(cpu.step(), Ok(RunState::Running));
    assert_eq!(cpu.program_counter, 0x0603);
}

#[test]
fn unrecognized_opcode_is_reported() {
    let mut cpu = CPU::new();
    assert_eq!(
        cpu.load_and_run(vec![0xE8, 0x02, 0x00]),
        Err(CpuError::UnrecognizedOpcode { code: 0x02, address: 0x0601 })
    );
    assert_eq!(cpu.program_counter, 0x0602);
    assert_eq!(cpu.register_x, 1);

    let mut cpu = CPU::new();
    cpu.load(vec![0xFF]);
    cpu.reset();
    assert_eq!(cpu.step(), Err(CpuError::UnrecognizedOpcode { code: 0xFF, address: 0x0600 }));
}

#[test]
fn step_limit_is_reported() {
    // JMP $0600 never halts.
    let mut cpu = CPU::new();
    cpu.load(vec![0x4C, 0x00, 0x06]);
    cpu.reset();
    assert_eq!(cpu.run_steps(1000), Err(CpuError::StepLimit));
    assert_eq!(cpu.program_counter, 0x0600);

    // LDA; TAX; BRK takes three steps.
    let mut cpu = CPU::new();
    cpu.load(vec![0xA9, 0x07, 0xAA, 0x00]);
    cpu.reset();
    assert_eq!(cpu.run_steps(0), Err(CpuError::StepLimit));
    assert_eq!(cpu.program_counter, 0x0600);
    assert_eq!(cpu.run_steps(2), Err(CpuError::StepLimit));
    assert_eq!(cpu.program_counter, 0x0603);
    assert_eq!(cpu.register_x, 7);
    cpu.reset();
    assert_eq!(cpu.run_steps(3), Ok(()));
    assert_eq!(cpu.program_counter, 0x0604);
}

#[test]
fn callback_runs_before_each_fetch() {
    let mut cpu = CPU::new();
    cpu.load(vec![0xE8, 0xE8, 0x00]);
    cpu.reset();
    let mut calls = 0;
    let mut counters: Vec<u16> = Vec::new();
    assert_eq!(
        cpu.run_with_callback(|cpu| {
            calls += 1;
            counters.push(cpu.program_counter);
        }),
        Ok(())
    );
    assert_eq!(calls, 3);
    assert_eq!(counters, vec![0x0600, 0x0601, 0x0602]);
    assert_eq!(cpu.register_x, 2);
}

#[test]
fn callback_may_change_the_processor() {
    let mut cpu = CPU::new();
    cpu.load(vec![0xE8, 0x00]);
    cpu.reset();
    let mut first = true;
    assert_eq!(
        cpu.run_with_callback(|cpu| {
            if first {
                cpu.register_x = 0x10;
                first = false;
            }
        }),
        Ok(())
    );
    assert_eq!(cpu.register_x, 0x11);

    // A hook can end a run that would not end: it plants the halt instruction.
    let mut cpu = CPU::new();
    cpu.load(vec![0x4C, 0x00, 0x06]);
    cpu.reset();
    let mut calls = 0;
    assert_eq!(
        cpu.run_steps_with_callback(100, |cpu| {
            calls += 1;
            if calls == 5 {
                cpu.mem_write(0x0600, 0x00);
            }
        }),
        Ok(())
    );
    assert_eq!(calls, 5);
    assert_eq!(cpu.program_counter, 0x0601);
}

#[test]
fn execute_one_entry() {
    let mut cpu = CPU::new();
    cpu.program_counter = 0x0010;
    cpu.mem_write(0x0010, 0x77);
    let entry = mos6502::opcodes::lookup(0xA9).unwrap();
    cpu.execute(&entry);
    assert_eq!(cpu.register_a, 0x77);
    // the skip over the operand is the step's, not the instruction's
    assert_eq!(cpu.program_counter, 0x0010);
}
