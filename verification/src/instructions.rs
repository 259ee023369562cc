//! The instructions, one method of the processor each.

use crate::arith::{bit7, join, lemma_byte_shifts, lemma_byte_tests, low, offset, wrap8};
use crate::cpu::{AddressingMode, CPU, MEM};
use crate::flags::CPUFlags;
use crate::state::State;
use vstd::prelude::*;

verus! {

impl CPU {
    /// Sets Zero if and only if `result` is zero, and Negative if and only if
    /// bit 7 of `result` is set. Nothing else changes.
    pub fn update_zero_and_negative_flags(&mut self, result: u8)
        ensures
            final(self)@ == old(self)@.update_zero_and_negative_flags(result),
            final(self)@.flag(CPUFlags::ZERO) <==> result == 0,
            final(self)@.flag(CPUFlags::NEGATIVE) <==> bit7(result),
    {
        if result == 0 {
            self.status.insert(CPUFlags::ZERO);
        } else {
            self.status.remove(CPUFlags::ZERO);
        }

        if result & 0b1000_0000 != 0 {
            self.status.insert(CPUFlags::NEGATIVE);
        } else {
            self.status.remove(CPUFlags::NEGATIVE);
        }
        proof {
            let zero = old(self).status.assign(CPUFlags::ZERO, result == 0);
            zero.lemma_assign(CPUFlags::NEGATIVE, bit7(result), CPUFlags::ZERO);
            old(self).status.lemma_assign(CPUFlags::ZERO, result == 0, CPUFlags::ZERO);
        }
    }

    /// Loads the accumulator with `value` and sets Zero and Negative from it.
    pub fn set_register_a(&mut self, value: u8)
        ensures
            final(self)@ == old(self)@.set_register_a(value),
    {
        self.register_a = value;
        self.update_zero_and_negative_flags(self.register_a);
    }

    /// LDA: loads the accumulator with the operand.
    pub fn lda(&mut self, mode: &AddressingMode)
        requires
            *mode != AddressingMode::NoneAddressing,
        ensures
            final(self)@ == old(self)@.lda(*mode),
    {
        let addr: u16 = self.get_operand_address(mode);
        let value: u8 = self.mem_read(addr);
        self.set_register_a(value);
    }

    /// LDX: loads X with the operand. Zero and Negative follow the value
    /// loaded.
    pub fn ldx(&mut self, mode: &AddressingMode)
        requires
            *mode != AddressingMode::NoneAddressing,
        ensures
            final(self)@ == old(self)@.ldx(*mode),
    {
        let addr: u16 = self.get_operand_address(mode);
        let data: u8 = self.mem_read(addr);
        self.register_x = data;
        self.update_zero_and_negative_flags(self.register_x);
    }

    /// LDY: loads Y with the operand.
    pub fn ldy(&mut self, mode: &AddressingMode)
        requires
            *mode != AddressingMode::NoneAddressing,
        ensures
            final(self)@ == old(self)@.ldy(*mode),
    {
        let addr: u16 = self.get_operand_address(mode);
        let data: u8 = self.mem_read(addr);
        self.register_y = data;
        self.update_zero_and_negative_flags(self.register_y);
    }

    /// STA: stores the accumulator at the operand's address.
    pub fn sta(&mut self, mode: &AddressingMode)
        requires
            *mode != AddressingMode::NoneAddressing,
        ensures
            final(self)@ == old(self)@.sta(*mode),
    {
        let addr: u16 = self.get_operand_address(mode);
        self.mem_write(addr, self.register_a);
    }

    /// STX: stores X at the operand's address.
    pub fn stx(&mut self, mode: &AddressingMode)
        requires
            *mode != AddressingMode::NoneAddressing,
        ensures
            final(self)@ == old(self)@.stx(*mode),
    {
        let addr: u16 = self.get_operand_address(mode);
        self.mem_write(addr, self.register_x);
    }

    /// STY: stores Y at the operand's address.
    pub fn sty(&mut self, mode: &AddressingMode)
        requires
            *mode != AddressingMode::NoneAddressing,
        ensures
            final(self)@ == old(self)@.sty(*mode),
    {
        let addr: u16 = self.get_operand_address(mode);
        self.mem_write(addr, self.register_y);
    }

    /// AND: the accumulator becomes its bitwise and with the operand.
    pub fn and(&mut self, mode: &AddressingMode)
        requires
            *mode != AddressingMode::NoneAddressing,
        ensures
            final(self)@ == old(self)@.and(*mode),
    {
        let addr: u16 = self.get_operand_address(mode);
        let data: u8 = self.mem_read(addr);
        self.set_register_a(data & self.register_a);
    }

    /// EOR: the accumulator becomes its bitwise exclusive or with the operand.
    pub fn eor(&mut self, mode: &AddressingMode)
        requires
            *mode != AddressingMode::NoneAddressing,
        ensures
            final(self)@ == old(self)@.eor(*mode),
    {
        let addr: u16 = self.get_operand_address(mode);
        let data: u8 = self.mem_read(addr);
        self.set_register_a(data ^ self.register_a);
    }

    /// ORA: the accumulator becomes its bitwise or with the operand.
    pub fn ora(&mut self, mode: &AddressingMode)
        requires
            *mode != AddressingMode::NoneAddressing,
        ensures
            final(self)@ == old(self)@.ora(*mode),
    {
        let addr: u16 = self.get_operand_address(mode);
        let data: u8 = self.mem_read(addr);
        self.set_register_a(data | self.register_a);
    }

    /// TAX: copies the accumulator to X.
    pub fn tax(&mut self)
        ensures
            final(self)@ == old(self)@.tax(),
    {
        self.register_x = self.register_a;
        self.update_zero_and_negative_flags(self.register_x);
    }

    /// TAY: copies the accumulator to Y.
    pub fn tay(&mut self)
        ensures
            final(self)@ == old(self)@.tay(),
    {
        self.register_y = self.register_a;
        self.update_zero_and_negative_flags(self.register_y);
    }

    /// TSX: copies the stack pointer to X.
    pub fn tsx(&mut self)
        ensures
            final(self)@ == old(self)@.tsx(),
    {
        self.register_x = self.stack_pointer;
        self.update_zero_and_negative_flags(self.register_x);
    }

    /// TXA: copies X to the accumulator.
    pub fn txa(&mut self)
        ensures
            final(self)@ == old(self)@.txa(),
    {
        self.register_a = self.register_x;
        self.update_zero_and_negative_flags(self.register_a);
    }

    /// TXS: copies X to the stack pointer. No flag changes.
    pub fn txs(&mut self)
        ensures
            final(self)@ == old(self)@.txs(),
    {
        self.stack_pointer = self.register_x;
    }

    /// TYA: copies Y to the accumulator.
    pub fn tya(&mut self)
        ensures
            final(self)@ == old(self)@.tya(),
    {
        self.register_a = self.register_y;
        self.update_zero_and_negative_flags(self.register_a);
    }

    /// INX: adds one to X, from `0xFF` to `0x00`.
    pub fn inx(&mut self)
        ensures
            final(self)@ == old(self)@.inx(),
    {
        self.register_x = self.register_x.wrapping_add(1);
        self.update_zero_and_negative_flags(self.register_x);
    }

    /// INY: adds one to Y, from `0xFF` to `0x00`.
    pub fn iny(&mut self)
        ensures
            final(self)@ == old(self)@.iny(),
    {
        self.register_y = self.register_y.wrapping_add(1);
        self.update_zero_and_negative_flags(self.register_y);
    }

    /// DEX: takes one from X, from `0x00` to `0xFF`.
    pub fn dex(&mut self)
        ensures
            final(self)@ == old(self)@.dex(),
    {
        self.register_x = self.register_x.wrapping_sub(1);
        self.update_zero_and_negative_flags(self.register_x);
    }

    /// DEY: takes one from Y, from `0x00` to `0xFF`.
    pub fn dey(&mut self)
        ensures
            final(self)@ == old(self)@.dey(),
    {
        self.register_y = self.register_y.wrapping_sub(1);
        self.update_zero_and_negative_flags(self.register_y);
    }

    /// INC: adds one to the operand in memory and returns the new value.
    pub fn inc(&mut self, mode: &AddressingMode) -> (data: u8)
        requires
            *mode != AddressingMode::NoneAddressing,
        ensures
            final(self)@ == old(self)@.inc(*mode),
            data == wrap8(old(self)@.operand(*mode) + 1),
    {
        let addr: u16 = self.get_operand_address(mode);
        let mut data: u8 = self.mem_read(addr);
        data = data.wrapping_add(1);
        self.mem_write(addr, data);
        self.update_zero_and_negative_flags(data);
        data
    }

    /// DEC: takes one from the operand in memory and returns the new value.
    pub fn dec(&mut self, mode: &AddressingMode) -> (data: u8)
        requires
            *mode != AddressingMode::NoneAddressing,
        ensures
            final(self)@ == old(self)@.dec(*mode),
            data == wrap8(old(self)@.operand(*mode) - 1),
    {
        let addr: u16 = self.get_operand_address(mode);
        let mut data: u8 = self.mem_read(addr);
        data = data.wrapping_sub(1);
        self.mem_write(addr, data);
        self.update_zero_and_negative_flags(data);
        data
    }

    /// Adds `data` and the carry to the accumulator. The sum is kept in eight
    /// bits; Carry tells whether it went beyond them, Overflow whether its sign
    /// is wrong for the signs of the addends.
    pub fn add_to_register_a(&mut self, data: u8)
        ensures
            final(self)@ == old(self)@.add_to_register_a(data),
            final(self).register_a == (old(self).register_a + data + old(self)@.carry()) % 0x100,
            final(self)@.flag(CPUFlags::CARRY) <==> old(self).register_a + data + old(self)@.carry()
                >= 0x100,
            final(self)@.flag(CPUFlags::OVERFLOW) <==> (data ^ final(self).register_a)
                & (final(self).register_a ^ old(self).register_a) & 0x80 != 0,
    {
        proof {
            self@.lemma_add_with_carry(data);
        }
        let carry_in: u16 = if self.status.contains(CPUFlags::CARRY) {
            1
        } else {
            0
        };
        let sum: u16 = self.register_a as u16 + data as u16 + carry_in;
        let carry: bool = sum > 0xFF;
        let result: u8 = if carry {
            (sum - 0x100) as u8
        } else {
            sum as u8
        };

        if carry {
            self.status.insert(CPUFlags::CARRY);
        } else {
            self.status.remove(CPUFlags::CARRY);
        }

        if (data ^ result) & (result ^ self.register_a) & 0x80 != 0 {
            self.status.insert(CPUFlags::OVERFLOW);
        } else {
            self.status.remove(CPUFlags::OVERFLOW);
        }

        self.set_register_a(result);
    }

    /// ADC: adds the operand and the carry to the accumulator.
    pub fn adc(&mut self, mode: &AddressingMode)
        requires
            *mode != AddressingMode::NoneAddressing,
        ensures
            final(self)@ == old(self)@.adc(*mode),
    {
        let addr: u16 = self.get_operand_address(mode);
        let value: u8 = self.mem_read(addr);
        self.add_to_register_a(value);
    }

    /// SBC: subtracts the operand and the borrow from the accumulator, by
    /// adding the operand's complement.
    pub fn sbc(&mut self, mode: &AddressingMode)
        requires
            *mode != AddressingMode::NoneAddressing,
        ensures
            final(self)@ == old(self)@.sbc(*mode),
    {
        let addr: u16 = self.get_operand_address(mode);
        let data: u8 = self.mem_read(addr);
        proof {
            self@.lemma_subtract_is_add(data);
        }
        self.add_to_register_a(0u8.wrapping_sub(data).wrapping_sub(1));
    }

    /// ASL on the accumulator.
    pub fn asl_accumulator(&mut self)
        ensures
            final(self)@ == old(self)@.asl_accumulator(),
    {
        let mut data: u8 = self.register_a;
        proof {
            lemma_byte_tests(data);
            lemma_byte_shifts(data);
        }
        if data >> 7 == 1 {
            self.set_carry_flag();
        } else {
            self.clear_carry_flag();
        }

        data = data << 1;
        self.set_register_a(data);
    }

    /// ASL: shifts the operand in memory left by one bit and returns the new
    /// value. Carry takes the bit shifted out.
    pub fn asl(&mut self, mode: &AddressingMode) -> (data: u8)
        requires
            *mode != AddressingMode::NoneAddressing,
        ensures
            final(self)@ == old(self)@.asl(*mode),
            data == State::asl_of(old(self)@.operand(*mode)),
    {
        let addr: u16 = self.get_operand_address(mode);
        let mut data: u8 = self.mem_read(addr);
        proof {
            lemma_byte_tests(data);
            lemma_byte_shifts(data);
        }
        if data >> 7 == 1 {
            self.set_carry_flag();
        } else {
            self.clear_carry_flag();
        }

        data = data << 1;
        self.mem_write(addr, data);
        self.update_zero_and_negative_flags(data);
        data
    }

    /// LSR on the accumulator.
    pub fn lsr_accumulator(&mut self)
        ensures
            final(self)@ == old(self)@.lsr_accumulator(),
    {
        let mut data: u8 = self.register_a;
        proof {
            lemma_byte_tests(data);
            lemma_byte_shifts(data);
        }
        if data & 1 == 1 {
            self.set_carry_flag();
        } else {
            self.clear_carry_flag();
        }

        data = data >> 1;
        self.set_register_a(data);
    }

    /// LSR: shifts the operand in memory right by one bit and returns the new
    /// value. Carry takes the bit shifted out.
    pub fn lsr(&mut self, mode: &AddressingMode) -> (data: u8)
        requires
            *mode != AddressingMode::NoneAddressing,
        ensures
            final(self)@ == old(self)@.lsr(*mode),
            data == State::lsr_of(old(self)@.operand(*mode)),
    {
        let addr: u16 = self.get_operand_address(mode);
        let mut data: u8 = self.mem_read(addr);
        proof {
            lemma_byte_tests(data);
            lemma_byte_shifts(data);
        }
        if data & 1 == 1 {
            self.set_carry_flag();
        } else {
            self.clear_carry_flag();
        }

        data = data >> 1;
        self.mem_write(addr, data);
        self.update_zero_and_negative_flags(data);
        data
    }

    /// ROL: rotates the operand in memory left by one bit through the carry
    /// and returns the new value.
    pub fn rol(&mut self, mode: &AddressingMode) -> (data: u8)
        requires
            *mode != AddressingMode::NoneAddressing,
        ensures
            final(self)@ == old(self)@.rol(*mode),
            data == old(self)@.rol_of(old(self)@.operand(*mode)),
    {
        let addr: u16 = self.get_operand_address(mode);
        let mut data: u8 = self.mem_read(addr);
        let old_carry: bool = self.status.contains(CPUFlags::CARRY);
        proof {
            lemma_byte_tests(data);
            lemma_byte_shifts(data);
        }
        if data >> 7 == 1 {
            self.set_carry_flag();
        } else {
            self.clear_carry_flag();
        }

        data = data << 1;
        if old_carry {
            data = data | 1;
        }
        self.mem_write(addr, data);
        self.update_zero_and_negative_flags(data);
        data
    }

    /// ROL on the accumulator.
    pub fn rol_accumulator(&mut self)
        ensures
            final(self)@ == old(self)@.rol_accumulator(),
    {
        let mut data: u8 = self.register_a;
        let old_carry: bool = self.status.contains(CPUFlags::CARRY);
        proof {
            lemma_byte_tests(data);
            lemma_byte_shifts(data);
        }
        if data >> 7 == 1 {
            self.set_carry_flag();
        } else {
            self.clear_carry_flag();
        }

        data = data << 1;
        if old_carry {
            data = data | 1;
        }
        self.set_register_a(data);
    }

    /// ROR: rotates the operand in memory right by one bit through the carry
    /// and returns the new value.
    pub fn ror(&mut self, mode: &AddressingMode) -> (data: u8)
        requires
            *mode != AddressingMode::NoneAddressing,
        ensures
            final(self)@ == old(self)@.ror(*mode),
            data == old(self)@.ror_of(old(self)@.operand(*mode)),
    {
        let addr: u16 = self.get_operand_address(mode);
        let mut data: u8 = self.mem_read(addr);
        let old_carry: bool = self.status.contains(CPUFlags::CARRY);
        proof {
            lemma_byte_tests(data);
            lemma_byte_shifts(data);
        }
        if data & 1 == 1 {
            self.set_carry_flag();
        } else {
            self.clear_carry_flag();
        }

        data = data >> 1;
        if old_carry {
            data = data | 0b1000_0000;
        }
        self.mem_write(addr, data);
        self.update_zero_and_negative_flags(data);
        data
    }

    /// ROR on the accumulator.
    pub fn ror_accumulator(&mut self)
        ensures
            final(self)@ == old(self)@.ror_accumulator(),
    {
        let mut data: u8 = self.register_a;
        let old_carry: bool = self.status.contains(CPUFlags::CARRY);
        proof {
            lemma_byte_tests(data);
            lemma_byte_shifts(data);
        }
        if data & 1 == 1 {
            self.set_carry_flag();
        } else {
            self.clear_carry_flag();
        }

        data = data >> 1;
        if old_carry {
            data = data | 0b1000_0000;
        }
        self.set_register_a(data);
    }

    /// PHA: pushes the accumulator.
    pub fn pha(&mut self)
        ensures
            final(self)@ == old(self)@.pha(),
    {
        self.stack_push(self.register_a);
    }

    /// PLA: pops the accumulator and sets Zero and Negative from it.
    pub fn pla(&mut self)
        ensures
            final(self)@ == old(self)@.pla(),
    {
        let data: u8 = self.stack_pop();
        self.set_register_a(data);
    }

    /// PLP: pops the status register. Break and Unused end up clear, whatever
    /// was on the stack.
    pub fn plp(&mut self)
        ensures
            final(self)@ == old(self)@.plp(),
    {
        self.status = CPUFlags::from_bits_truncate(self.stack_pop());
        self.status.remove(CPUFlags::BREAK);
        self.status.remove(CPUFlags::UNUSED);
    }

    /// PHP: pushes the status byte with Break and Unused set. The status
    /// register keeps its value.
    pub fn php(&mut self)
        ensures
            final(self)@ == old(self)@.php(),
    {
        let mut flags: CPUFlags = self.status.clone();
        flags.insert(CPUFlags::BREAK);
        flags.insert(CPUFlags::UNUSED);
        self.stack_push(flags.bits());
    }

    /// BIT: Zero tells whether the accumulator and the operand share no bit;
    /// Negative and Overflow take bits 7 and 6 of the operand.
    pub fn bit(&mut self, mode: &AddressingMode)
        requires
            *mode != AddressingMode::NoneAddressing,
        ensures
            final(self)@ == old(self)@.bit(*mode),
    {
        let addr: u16 = self.get_operand_address(mode);
        let data: u8 = self.mem_read(addr);
        let and: u8 = self.register_a & data;

        if and == 0 {
            self.status.insert(CPUFlags::ZERO);
        } else {
            self.status.remove(CPUFlags::ZERO);
        }

        self.status.set(CPUFlags::NEGATIVE, data & 0b1000_0000 != 0);
        self.status.set(CPUFlags::OVERFLOW, data & 0b0100_0000 != 0);
    }

    /// CMP, CPX, CPY: compares `compare_with` with the operand. Carry is set
    /// if and only if the operand is not the larger one.
    pub fn compare(&mut self, mode: &AddressingMode, compare_with: u8)
        requires
            *mode != AddressingMode::NoneAddressing,
        ensures
            final(self)@ == old(self)@.compare(*mode, compare_with),
    {
        let addr: u16 = self.get_operand_address(mode);
        let data: u8 = self.mem_read(addr);

        if data <= compare_with {
            self.set_carry_flag();
        } else {
            self.clear_carry_flag();
        }

        self.update_zero_and_negative_flags(compare_with.wrapping_sub(data));
    }

    /// A conditional branch: if `condition` holds, the program counter moves
    /// by the signed displacement that it points at, counted from the byte
    /// behind the displacement.
    pub fn branch(&mut self, condition: bool)
        ensures
            final(self)@ == old(self)@.branch(condition),
    {
        if condition {
            let jump: u8 = self.mem_read(self.program_counter);
            let jump_addr: u16 = offset(self.program_counter.wrapping_add(1), jump);

            self.program_counter = jump_addr;
        }
    }

    /// JMP with an absolute operand.
    pub fn jmp_absolute(&mut self)
        ensures
            final(self)@ == old(self)@.jmp_absolute(),
    {
        let mem_address: u16 = self.mem_read_u16(self.program_counter);
        self.program_counter = mem_address;
    }

    /// JMP through a pointer. Where the pointer is the last byte of a page,
    /// the high byte of the target comes from the first byte of that page, not
    /// from the next page.
    pub fn jmp_indirect(&mut self)
        ensures
            final(self)@ == old(self)@.jmp_indirect(),
    {
        let mem_address: u16 = self.mem_read_u16(self.program_counter);
        let indirect_ref: u16 = if low(mem_address) == 0xFF {
            let lo: u8 = self.mem_read(mem_address);
            let hi: u8 = self.mem_read(mem_address - 0x00FF);
            join(lo, hi)
        } else {
            self.mem_read_u16(mem_address)
        };

        self.program_counter = indirect_ref;
    }

    /// JSR: pushes the address of the last byte of this instruction and jumps
    /// to the operand.
    pub fn jsr(&mut self)
        ensures
            final(self)@ == old(self)@.jsr(),
    {
        self.stack_push_u16(self.program_counter.wrapping_add(2).wrapping_sub(1));
        let target_address: u16 = self.mem_read_u16(self.program_counter);
        self.program_counter = target_address;
    }

    /// RTS: pops an address and jumps behind it.
    pub fn rts(&mut self)
        ensures
            final(self)@ == old(self)@.rts(),
    {
        self.program_counter = self.stack_pop_u16().wrapping_add(1);
    }

    /// RTI: pops the status register, with Break clear and Unused set, and
    /// then the program counter.
    pub fn rti(&mut self)
        ensures
            final(self)@ == old(self)@.rti(),
    {
        self.status = CPUFlags::from_bits_truncate(self.stack_pop());
        self.status.remove(CPUFlags::BREAK);
        self.status.insert(CPUFlags::UNUSED);

        self.program_counter = self.stack_pop_u16();
    }
}

} // verus!
