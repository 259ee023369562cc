//! What holds of the instructions whatever the state they start from.

use crate::arith::{bit7, high_byte, lemma_complement, low_byte, wrap8};
use crate::cpu::{AddressingMode, CpuError, RunState};
use crate::flags::CPUFlags;
use crate::opcodes::{lemma_entry_shape, Mnemonic, OpCode};
use crate::state::{State, RESET_VECTOR, STACK_RESET};
use vstd::prelude::*;

verus! {

impl State {
    /// A byte written is the byte read at that address afterwards, and every
    /// other address reads as before.
    pub proof fn lemma_write_read(self, addr: u16, value: u8, other: u16)
        requires
            self.wf(),
        ensures
            self.write(addr, value).read(addr) == value,
            other != addr ==> self.write(addr, value).read(other) == self.read(other),
    {
    }

    /// A word written is the word read at that address afterwards, also where
    /// its high byte falls on address zero.
    pub proof fn lemma_write_read_u16(self, addr: u16, data: u16)
        requires
            self.wf(),
        ensures
            self.write_u16(addr, data).read_u16(addr) == data,
    {
    }

    /// Setting or clearing one flag decides that flag, leaves every other flag
    /// as it was, and touches nothing but the status register.
    pub proof fn lemma_set_flag(self, mask: u8, on: bool, other: u8)
        requires
            CPUFlags::single(mask),
            CPUFlags::single(other),
        ensures
            self.set_flag(mask, on).flag(mask) == on,
            other != mask ==> self.set_flag(mask, on).flag(other) == self.flag(other),
            self.set_flag(mask, on) == (State { status: self.set_flag(mask, on).status, ..self }),
    {
        self.status.lemma_assign(mask, on, other);
    }

    /// Once Zero and Negative are set from a result, Zero tells whether the
    /// result is zero and Negative whether its bit 7 is set. No other flag
    /// changes.
    pub proof fn lemma_zero_and_negative(self, result: u8, other: u8)
        requires
            CPUFlags::single(other),
        ensures
            self.update_zero_and_negative_flags(result).flag(CPUFlags::ZERO) <==> result == 0,
            self.update_zero_and_negative_flags(result).flag(CPUFlags::NEGATIVE) <==> bit7(result),
            other != CPUFlags::ZERO && other != CPUFlags::NEGATIVE
                ==> self.update_zero_and_negative_flags(result).flag(other) == self.flag(other),
    {
        let zero = self.set_flag(CPUFlags::ZERO, result == 0);
        self.lemma_set_flag(CPUFlags::ZERO, result == 0, other);
        zero.lemma_set_flag(CPUFlags::NEGATIVE, bit7(result), CPUFlags::ZERO);
        zero.lemma_set_flag(CPUFlags::NEGATIVE, bit7(result), other);
    }

    /// A register loaded with a value leaves Zero and Negative telling of that
    /// value.
    pub proof fn lemma_register_flags(self, value: u8)
        ensures
            self.set_register_a(value).a == value,
            self.set_register_a(value).flag(CPUFlags::ZERO) <==> value == 0,
            self.set_register_a(value).flag(CPUFlags::NEGATIVE) <==> bit7(value),
            self.set_register_x(value).x == value,
            self.set_register_x(value).flag(CPUFlags::ZERO) <==> value == 0,
            self.set_register_x(value).flag(CPUFlags::NEGATIVE) <==> bit7(value),
            self.set_register_y(value).y == value,
            self.set_register_y(value).flag(CPUFlags::ZERO) <==> value == 0,
            self.set_register_y(value).flag(CPUFlags::NEGATIVE) <==> bit7(value),
    {
        (State { a: value, ..self }).lemma_zero_and_negative(value, CPUFlags::ZERO);
        (State { x: value, ..self }).lemma_zero_and_negative(value, CPUFlags::ZERO);
        (State { y: value, ..self }).lemma_zero_and_negative(value, CPUFlags::ZERO);
    }

    /// A result stored back to the operand is what memory then holds there,
    /// and Zero and Negative tell of it.
    pub proof fn lemma_stored_flags(self, mode: AddressingMode, result: u8)
        requires
            self.wf(),
        ensures
            self.store_result(mode, result).read(self.operand_address(mode)) == result,
            self.store_result(mode, result).flag(CPUFlags::ZERO) <==> result == 0,
            self.store_result(mode, result).flag(CPUFlags::NEGATIVE) <==> bit7(result),
    {
        self.write(self.operand_address(mode), result).lemma_zero_and_negative(
            result,
            CPUFlags::ZERO,
        );
    }

    /// The byte that the instruction `op` computes, for the instructions that
    /// set Zero and Negative from what they compute: the new value of the
    /// register or of the byte in memory that the instruction writes, and for
    /// a comparison the difference.
    pub open spec fn result_of(self, op: OpCode) -> Option<u8> {
        match op.mnemonic {
            Mnemonic::LDA
            | Mnemonic::TXA
            | Mnemonic::TYA
            | Mnemonic::PLA
            | Mnemonic::AND
            | Mnemonic::EOR
            | Mnemonic::ORA
            | Mnemonic::ADC
            | Mnemonic::SBC => Some(self.execute(op).a),
            Mnemonic::LDX | Mnemonic::TAX | Mnemonic::TSX | Mnemonic::INX | Mnemonic::DEX => Some(
                self.execute(op).x,
            ),
            Mnemonic::LDY | Mnemonic::TAY | Mnemonic::INY | Mnemonic::DEY => Some(
                self.execute(op).y,
            ),
            Mnemonic::ASL | Mnemonic::LSR | Mnemonic::ROL | Mnemonic::ROR => if op.mode
                == AddressingMode::NoneAddressing {
                Some(self.execute(op).a)
            } else {
                Some(self.execute(op).read(self.operand_address(op.mode)))
            },
            Mnemonic::INC | Mnemonic::DEC => Some(
                self.execute(op).read(self.operand_address(op.mode)),
            ),
            Mnemonic::CMP => Some(wrap8(self.a - self.operand(op.mode))),
            Mnemonic::CPX => Some(wrap8(self.x - self.operand(op.mode))),
            Mnemonic::CPY => Some(wrap8(self.y - self.operand(op.mode))),
            _ => None,
        }
    }

    /// After every instruction that sets Zero and Negative from its result,
    /// Zero is set if and only if the result is zero, and Negative if and only
    /// if bit 7 of the result is set.
    pub proof fn lemma_result_flags(self, op: OpCode)
        requires
            self.wf(),
        ensures
            self.result_of(op) matches Some(result) ==> {
                &&& self.execute(op).flag(CPUFlags::ZERO) <==> result == 0
                &&& self.execute(op).flag(CPUFlags::NEGATIVE) <==> bit7(result)
            },
    {
        let mode = op.mode;
        let data = self.operand(mode);
        match op.mnemonic {
            Mnemonic::LDA | Mnemonic::LDX | Mnemonic::LDY => {
                self.lemma_register_flags(data);
            },
            Mnemonic::TXA | Mnemonic::INX | Mnemonic::DEX => {
                self.lemma_register_flags(self.x);
                self.lemma_register_flags(wrap8(self.x + 1));
                self.lemma_register_flags(wrap8(self.x - 1));
            },
            Mnemonic::TYA | Mnemonic::INY | Mnemonic::DEY => {
                self.lemma_register_flags(self.y);
                self.lemma_register_flags(wrap8(self.y + 1));
                self.lemma_register_flags(wrap8(self.y - 1));
            },
            Mnemonic::TAX | Mnemonic::TAY => {
                self.lemma_register_flags(self.a);
            },
            Mnemonic::TSX => {
                self.lemma_register_flags(self.sp);
            },
            Mnemonic::PLA => {
                self.stack_pop().lemma_register_flags(self.stack_top());
            },
            Mnemonic::AND | Mnemonic::EOR | Mnemonic::ORA => {
                self.lemma_register_flags(data & self.a);
                self.lemma_register_flags(data ^ self.a);
                self.lemma_register_flags(data | self.a);
            },
            Mnemonic::ADC => {
                self.lemma_add_with_carry(data);
            },
            Mnemonic::SBC => {
                self.lemma_subtract_is_add(data);
                self.lemma_add_with_carry(wrap8(-data - 1));
            },
            Mnemonic::ASL | Mnemonic::ROL => {
                let carried = self.set_flag(CPUFlags::CARRY, bit7(data));
                let in_a = self.set_flag(CPUFlags::CARRY, bit7(self.a));
                in_a.lemma_register_flags(Self::asl_of(self.a));
                in_a.lemma_register_flags(self.rol_of(self.a));
                carried.lemma_stored_flags(mode, Self::asl_of(data));
                carried.lemma_stored_flags(mode, self.rol_of(data));
            },
            Mnemonic::LSR | Mnemonic::ROR => {
                let carried = self.set_flag(CPUFlags::CARRY, data % 2 == 1);
                let in_a = self.set_flag(CPUFlags::CARRY, self.a % 2 == 1);
                in_a.lemma_register_flags(Self::lsr_of(self.a));
                in_a.lemma_register_flags(self.ror_of(self.a));
                carried.lemma_stored_flags(mode, Self::lsr_of(data));
                carried.lemma_stored_flags(mode, self.ror_of(data));
            },
            Mnemonic::INC | Mnemonic::DEC => {
                self.lemma_stored_flags(mode, wrap8(data + 1));
                self.lemma_stored_flags(mode, wrap8(data - 1));
            },
            Mnemonic::CMP => {
                self.set_flag(CPUFlags::CARRY, data <= self.a).lemma_zero_and_negative(
                    wrap8(self.a - data),
                    CPUFlags::ZERO,
                );
            },
            Mnemonic::CPX => {
                self.set_flag(CPUFlags::CARRY, data <= self.x).lemma_zero_and_negative(
                    wrap8(self.x - data),
                    CPUFlags::ZERO,
                );
            },
            Mnemonic::CPY => {
                self.set_flag(CPUFlags::CARRY, data <= self.y).lemma_zero_and_negative(
                    wrap8(self.y - data),
                    CPUFlags::ZERO,
                );
            },
            _ => {},
        }
    }

    /// Addition with carry: the accumulator takes the sum of the accumulator,
    /// the operand and the carry, reduced to eight bits. Carry is set if and
    /// only if the sum is 256 or more, Overflow if and only if
    /// `(operand ^ result) & (result ^ accumulator) & 0x80` is not zero, and
    /// Zero and Negative follow the result.
    pub proof fn lemma_add_with_carry(self, data: u8)
        ensures
            self.add_to_register_a(data).a == (self.a + data + self.carry()) % 256,
            self.add_to_register_a(data).flag(CPUFlags::CARRY) <==> self.a + data + self.carry()
                >= 256,
            self.add_to_register_a(data).flag(CPUFlags::OVERFLOW) <==> (data
                ^ self.add_to_register_a(data).a) & (self.add_to_register_a(data).a ^ self.a) & 0x80
                != 0,
            self.add_to_register_a(data).flag(CPUFlags::ZERO) <==> self.add_to_register_a(data).a
                == 0,
            self.add_to_register_a(data).flag(CPUFlags::NEGATIVE) <==> bit7(
                self.add_to_register_a(data).a,
            ),
    {
        let sum = self.a + data + self.carry();
        let result = wrap8(sum);
        let overflow = (data ^ result) & (result ^ self.a) & 0x80 != 0;
        let carried = self.set_flag(CPUFlags::CARRY, sum > 0xFF);
        let flagged = carried.set_flag(CPUFlags::OVERFLOW, overflow);
        let loaded = State { a: result, ..flagged };
        self.lemma_set_flag(CPUFlags::CARRY, sum > 0xFF, CPUFlags::CARRY);
        carried.lemma_set_flag(CPUFlags::OVERFLOW, overflow, CPUFlags::CARRY);
        loaded.lemma_zero_and_negative(result, CPUFlags::CARRY);
        loaded.lemma_zero_and_negative(result, CPUFlags::OVERFLOW);
    }

    /// Subtracting a byte is adding its complement: the accumulator, Carry,
    /// Overflow and everything else come out the same on both ways.
    pub proof fn lemma_subtract_is_add(self, data: u8)
        ensures
            self.subtract_from_register_a(data) == self.add_to_register_a(wrap8(-data - 1)),
    {
        let complement = wrap8(-data - 1);
        let sum = self.a + complement + self.carry();
        let difference = self.a - data - (1 - self.carry());
        assert(complement == 0xFF - data);
        assert(sum == difference + 0x100);
        let result = wrap8(sum);
        assert(result == wrap8(difference));
        lemma_complement(self.a, data, result);
        assert(complement == !data);
    }

    /// A byte pushed is the byte popped next, and the pop puts the stack
    /// pointer back where it was.
    pub proof fn lemma_push_pop(self, data: u8)
        requires
            self.wf(),
        ensures
            self.stack_push(data).stack_top() == data,
            self.stack_push(data).stack_pop() == (State {
                mem: self.stack_push(data).mem,
                ..self
            }),
    {
    }

    /// A word pushed is the word popped next, and the pop puts the stack
    /// pointer back where it was.
    pub proof fn lemma_push_pop_u16(self, data: u16)
        requires
            self.wf(),
        ensures
            self.stack_push_u16(data).stack_top_u16() == data,
            self.stack_push_u16(data).stack_pop_u16() == (State {
                mem: self.stack_push_u16(data).mem,
                ..self
            }),
    {
        let high = self.stack_push(high_byte(data));
        high.lemma_push_pop(low_byte(data));
        self.lemma_push_pop(high_byte(data));
    }

    /// Pushing the status register and popping it again keeps every flag but
    /// Break and Unused, and those two are clear afterwards.
    pub proof fn lemma_push_pop_status(self, flag: u8)
        requires
            self.wf(),
            CPUFlags::single(flag),
        ensures
            !self.php().plp().flag(CPUFlags::BREAK),
            !self.php().plp().flag(CPUFlags::UNUSED),
            flag != CPUFlags::BREAK && flag != CPUFlags::UNUSED ==> self.php().plp().flag(flag)
                == self.flag(flag),
            self.php().plp() == (State {
                status: self.php().plp().status,
                mem: self.php().mem,
                ..self
            }),
    {
        let pushed = self.status.with(CPUFlags::BREAK).with(CPUFlags::UNUSED);
        self.lemma_push_pop(pushed.bits);
        self.status.lemma_assign(CPUFlags::BREAK, true, flag);
        self.status.with(CPUFlags::BREAK).lemma_assign(CPUFlags::UNUSED, true, flag);
        pushed.lemma_assign(CPUFlags::BREAK, false, flag);
        pushed.lemma_assign(CPUFlags::BREAK, false, CPUFlags::BREAK);
        pushed.without(CPUFlags::BREAK).lemma_assign(CPUFlags::UNUSED, false, flag);
        pushed.without(CPUFlags::BREAK).lemma_assign(CPUFlags::UNUSED, false, CPUFlags::BREAK);
    }

    /// Whatever byte is popped into the status register, Break and Unused are
    /// clear afterwards.
    pub proof fn lemma_pop_status_clears(self)
        ensures
            !self.plp().flag(CPUFlags::BREAK),
            !self.plp().flag(CPUFlags::UNUSED),
    {
        let popped = CPUFlags { bits: self.stack_top() };
        popped.lemma_assign(CPUFlags::BREAK, false, CPUFlags::BREAK);
        popped.without(CPUFlags::BREAK).lemma_assign(CPUFlags::UNUSED, false, CPUFlags::BREAK);
    }

    /// A reset from any state gives zero in the three registers, `0xFD` in the
    /// stack pointer, Interrupt-Disable and Unused set and every other flag
    /// clear, and the program counter that the reset vector holds. Memory is
    /// kept, so a second reset changes nothing.
    pub proof fn lemma_reset(self, flag: u8)
        requires
            CPUFlags::single(flag),
        ensures
            self.reset().a == 0 && self.reset().x == 0 && self.reset().y == 0,
            self.reset().sp == STACK_RESET,
            self.reset().flag(flag) <==> flag == CPUFlags::INTERRUPT_DISABLE || flag
                == CPUFlags::UNUSED,
            self.reset().pc == self.read_u16(RESET_VECTOR),
            self.reset().mem == self.mem,
            self.reset().reset() == self.reset(),
    {
        let bits: u8 = self.reset().status.bits;
        assert(bits & 1 != 1 && bits & 2 != 2 && bits & 4 == 4 && bits & 8 != 8 && bits & 16 != 16
            && bits & 32 == 32 && bits & 64 != 64 && bits & 128 != 128) by (bit_vector)
            requires
                bits == 0b0010_0100,
        ;
    }

    /// An indirect jump reads both bytes of its target in the page of the
    /// pointer: the high byte at the next address, or at the start of the page
    /// where there is no next address in it.
    pub proof fn lemma_indirect_jump_stays_in_page(pointer: u16)
        ensures
            high_byte(Self::indirect_high_address(pointer)) == high_byte(pointer),
            low_byte(Self::indirect_high_address(pointer)) == wrap8(low_byte(pointer) + 1),
    {
    }

    /// A step keeps the address space whole.
    pub proof fn lemma_step_wf(self)
        requires
            self.wf(),
        ensures
            self.step().wf(),
    {
    }

    /// A run keeps the address space whole.
    pub proof fn lemma_run_wf(self, limit: nat)
        requires
            self.wf(),
        ensures
            self.run(limit).wf(),
        decreases limit,
    {
        if limit > 0 {
            self.lemma_step_wf();
            if self.step_result() == Ok::<RunState, CpuError>(RunState::Running) {
                self.step().lemma_run_wf((limit - 1) as nat);
            }
        }
    }

    /// However a run ends, it tells the truth: after `Ok` the byte before the
    /// program counter is the halt instruction, and after an unrecognized
    /// opcode the byte named is no opcode and stands where the error says,
    /// right before the program counter.
    pub proof fn lemma_run_ends(self, limit: nat)
        ensures
            self.run_result(limit) is Ok ==> self.run(limit).halted(),
            self.run_result(limit) matches Err(CpuError::UnrecognizedOpcode { code, address })
                ==> self.run(limit).refused(code, address),
        decreases limit,
    {
        if limit > 0 {
            if self.step_result() is Ok {
                lemma_entry_shape(self.read(self.pc));
            }
            if self.step_result() == Ok::<RunState, CpuError>(RunState::Running) {
                self.step().lemma_run_ends((limit - 1) as nat);
            }
        }
    }

    /// A run that ends before its limit ends the same way under any larger
    /// limit.
    pub proof fn lemma_run_limit(self, limit: nat, larger: nat)
        requires
            limit <= larger,
            self.run_result(limit) != Err::<(), CpuError>(CpuError::StepLimit),
        ensures
            self.run(larger) == self.run(limit),
            self.run_result(larger) == self.run_result(limit),
        decreases limit,
    {
        if limit > 0 {
            if self.step_result() == Ok::<RunState, CpuError>(RunState::Running) {
                self.step().lemma_run_limit((limit - 1) as nat, (larger - 1) as nat);
            }
        }
    }
}

} // verus!
