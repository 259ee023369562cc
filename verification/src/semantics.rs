//! What each instruction does to the state, and what one step and a whole run
//! of the dispatch loop do.

use crate::arith::{bit6, bit7, low_byte, signed, word, wrap16, wrap8};
use crate::cpu::{AddressingMode, CpuError, RunState};
use crate::flags::CPUFlags;
use crate::opcodes::{opcode, Mnemonic, OpCode};
use crate::state::State;
use vstd::prelude::*;

verus! {

impl State {
    /// Zero is set if and only if `result` is zero, Negative if and only if its
    /// bit 7 is set.
    pub open spec fn update_zero_and_negative_flags(self, result: u8) -> State {
        self.set_flag(CPUFlags::ZERO, result == 0).set_flag(CPUFlags::NEGATIVE, bit7(result))
    }

    /// The accumulator takes `value`; Zero and Negative follow it.
    pub open spec fn set_register_a(self, value: u8) -> State {
        State { a: value, ..self }.update_zero_and_negative_flags(value)
    }

    /// X takes `value`; Zero and Negative follow it.
    pub open spec fn set_register_x(self, value: u8) -> State {
        State { x: value, ..self }.update_zero_and_negative_flags(value)
    }

    /// Y takes `value`; Zero and Negative follow it.
    pub open spec fn set_register_y(self, value: u8) -> State {
        State { y: value, ..self }.update_zero_and_negative_flags(value)
    }

    pub open spec fn lda(self, mode: AddressingMode) -> State {
        self.set_register_a(self.operand(mode))
    }

    pub open spec fn ldx(self, mode: AddressingMode) -> State {
        self.set_register_x(self.operand(mode))
    }

    pub open spec fn ldy(self, mode: AddressingMode) -> State {
        self.set_register_y(self.operand(mode))
    }

    pub open spec fn sta(self, mode: AddressingMode) -> State {
        self.write(self.operand_address(mode), self.a)
    }

    pub open spec fn stx(self, mode: AddressingMode) -> State {
        self.write(self.operand_address(mode), self.x)
    }

    pub open spec fn sty(self, mode: AddressingMode) -> State {
        self.write(self.operand_address(mode), self.y)
    }

    pub open spec fn and(self, mode: AddressingMode) -> State {
        self.set_register_a(self.operand(mode) & self.a)
    }

    pub open spec fn eor(self, mode: AddressingMode) -> State {
        self.set_register_a(self.operand(mode) ^ self.a)
    }

    pub open spec fn ora(self, mode: AddressingMode) -> State {
        self.set_register_a(self.operand(mode) | self.a)
    }

    pub open spec fn tax(self) -> State {
        self.set_register_x(self.a)
    }

    pub open spec fn tay(self) -> State {
        self.set_register_y(self.a)
    }

    pub open spec fn tsx(self) -> State {
        self.set_register_x(self.sp)
    }

    pub open spec fn txa(self) -> State {
        self.set_register_a(self.x)
    }

    /// The one transfer that leaves the flags alone.
    pub open spec fn txs(self) -> State {
        State { sp: self.x, ..self }
    }

    pub open spec fn tya(self) -> State {
        self.set_register_a(self.y)
    }

    pub open spec fn inx(self) -> State {
        self.set_register_x(wrap8(self.x + 1))
    }

    pub open spec fn iny(self) -> State {
        self.set_register_y(wrap8(self.y + 1))
    }

    pub open spec fn dex(self) -> State {
        self.set_register_x(wrap8(self.x - 1))
    }

    pub open spec fn dey(self) -> State {
        self.set_register_y(wrap8(self.y - 1))
    }

    /// The operand stored back as `result`, with Zero and Negative following
    /// it.
    pub open spec fn store_result(self, mode: AddressingMode, result: u8) -> State {
        self.write(self.operand_address(mode), result).update_zero_and_negative_flags(result)
    }

    pub open spec fn inc(self, mode: AddressingMode) -> State {
        self.store_result(mode, wrap8(self.operand(mode) + 1))
    }

    pub open spec fn dec(self, mode: AddressingMode) -> State {
        self.store_result(mode, wrap8(self.operand(mode) - 1))
    }

    /// The accumulator plus `data` plus the carry, in eight bits. Carry is set
    /// if and only if the sum does not fit; Overflow if and only if the sign of
    /// the result differs from the signs of both addends.
    pub open spec fn add_to_register_a(self, data: u8) -> State {
        let sum = self.a + data + self.carry();
        let result = wrap8(sum);
        self.set_flag(CPUFlags::CARRY, sum > 0xFF).set_flag(
            CPUFlags::OVERFLOW,
            (data ^ result) & (result ^ self.a) & 0x80 != 0,
        ).set_register_a(result)
    }

    pub open spec fn adc(self, mode: AddressingMode) -> State {
        self.add_to_register_a(self.operand(mode))
    }

    /// The accumulator minus `data` minus the borrow, in eight bits. The
    /// borrow is one where the carry is clear. Carry is set if and only if the
    /// difference is not negative; Overflow if and only if the operands differ
    /// in sign and the result has not the sign of the accumulator.
    pub open spec fn subtract_from_register_a(self, data: u8) -> State {
        let difference = self.a - data - (1 - self.carry());
        let result = wrap8(difference);
        self.set_flag(CPUFlags::CARRY, difference >= 0).set_flag(
            CPUFlags::OVERFLOW,
            (self.a ^ data) & (self.a ^ result) & 0x80 != 0,
        ).set_register_a(result)
    }

    pub open spec fn sbc(self, mode: AddressingMode) -> State {
        self.subtract_from_register_a(self.operand(mode))
    }

    /// `value` shifted left by one bit.
    pub open spec fn asl_of(value: u8) -> u8 {
        wrap8(2 * value)
    }

    /// `value` shifted right by one bit.
    pub open spec fn lsr_of(value: u8) -> u8 {
        value / 2
    }

    /// `value` shifted left by one bit, with the carry moved into bit 0.
    pub open spec fn rol_of(self, value: u8) -> u8 {
        wrap8(2 * value + self.carry())
    }

    /// `value` shifted right by one bit, with the carry moved into bit 7.
    pub open spec fn ror_of(self, value: u8) -> u8 {
        (value / 2 + 0x80 * self.carry()) as u8
    }

    pub open spec fn asl_accumulator(self) -> State {
        self.set_flag(CPUFlags::CARRY, bit7(self.a)).set_register_a(Self::asl_of(self.a))
    }

    pub open spec fn asl(self, mode: AddressingMode) -> State {
        let data = self.operand(mode);
        self.set_flag(CPUFlags::CARRY, bit7(data)).store_result(mode, Self::asl_of(data))
    }

    pub open spec fn lsr_accumulator(self) -> State {
        self.set_flag(CPUFlags::CARRY, self.a % 2 == 1).set_register_a(Self::lsr_of(self.a))
    }

    pub open spec fn lsr(self, mode: AddressingMode) -> State {
        let data = self.operand(mode);
        self.set_flag(CPUFlags::CARRY, data % 2 == 1).store_result(mode, Self::lsr_of(data))
    }

    pub open spec fn rol_accumulator(self) -> State {
        self.set_flag(CPUFlags::CARRY, bit7(self.a)).set_register_a(self.rol_of(self.a))
    }

    pub open spec fn rol(self, mode: AddressingMode) -> State {
        let data = self.operand(mode);
        self.set_flag(CPUFlags::CARRY, bit7(data)).store_result(mode, self.rol_of(data))
    }

    pub open spec fn ror_accumulator(self) -> State {
        self.set_flag(CPUFlags::CARRY, self.a % 2 == 1).set_register_a(self.ror_of(self.a))
    }

    pub open spec fn ror(self, mode: AddressingMode) -> State {
        let data = self.operand(mode);
        self.set_flag(CPUFlags::CARRY, data % 2 == 1).store_result(mode, self.ror_of(data))
    }

    /// Carry is set if and only if the operand is at most `compare_with`; Zero
    /// and Negative follow `compare_with - operand` in eight bits.
    pub open spec fn compare(self, mode: AddressingMode, compare_with: u8) -> State {
        let data = self.operand(mode);
        self.set_flag(CPUFlags::CARRY, data <= compare_with).update_zero_and_negative_flags(
            wrap8(compare_with - data),
        )
    }

    /// Zero tells whether the accumulator and the operand share no bit;
    /// Negative and Overflow are bits 7 and 6 of the operand itself.
    pub open spec fn bit(self, mode: AddressingMode) -> State {
        let data = self.operand(mode);
        self.set_flag(CPUFlags::ZERO, self.a & data == 0).set_flag(
            CPUFlags::NEGATIVE,
            bit7(data),
        ).set_flag(CPUFlags::OVERFLOW, bit6(data))
    }

    pub open spec fn pha(self) -> State {
        self.stack_push(self.a)
    }

    pub open spec fn pla(self) -> State {
        self.stack_pop().set_register_a(self.stack_top())
    }

    /// The status byte goes to the stack with Break and Unused set; the
    /// register itself keeps its value.
    pub open spec fn php(self) -> State {
        self.stack_push(self.status.with(CPUFlags::BREAK).with(CPUFlags::UNUSED).bits)
    }

    /// The status register takes the popped byte, but for Break and Unused,
    /// which end up clear.
    pub open spec fn plp(self) -> State {
        State {
            status: (CPUFlags { bits: self.stack_top() }).without(CPUFlags::BREAK).without(
                CPUFlags::UNUSED,
            ),
            ..self.stack_pop()
        }
    }

    /// The branch target is the address after the displacement byte plus the
    /// displacement, read as a signed number.
    pub open spec fn branch(self, condition: bool) -> State {
        if condition {
            self.jump(wrap16(self.pc + 1 + signed(self.read(self.pc))))
        } else {
            self
        }
    }

    pub open spec fn jmp_absolute(self) -> State {
        self.jump(self.read_u16(self.pc))
    }

    /// Where an indirect jump through `pointer` reads the high byte of its
    /// target: at the next address, unless the pointer is the last byte of its
    /// page. Then it is the first byte of the same page.
    pub open spec fn indirect_high_address(pointer: u16) -> u16 {
        if low_byte(pointer) == 0xFF {
            (pointer - 0xFF) as u16
        } else {
            (pointer + 1) as u16
        }
    }

    pub open spec fn jmp_indirect(self) -> State {
        let pointer = self.read_u16(self.pc);
        self.jump(word(self.read(pointer), self.read(Self::indirect_high_address(pointer))))
    }

    /// The address of the last byte of the call instruction is pushed; the
    /// target is read after the push.
    pub open spec fn jsr(self) -> State {
        let pushed = self.stack_push_u16(wrap16(self.pc + 1));
        pushed.jump(pushed.read_u16(self.pc))
    }

    pub open spec fn rts(self) -> State {
        self.stack_pop_u16().jump(wrap16(self.stack_top_u16() + 1))
    }

    /// The status register takes the popped byte with Break clear and Unused
    /// set; then the program counter is popped.
    pub open spec fn rti(self) -> State {
        let restored = State {
            status: (CPUFlags { bits: self.stack_top() }).without(CPUFlags::BREAK).with(
                CPUFlags::UNUSED,
            ),
            ..self.stack_pop()
        };
        restored.stack_pop_u16().jump(restored.stack_top_u16())
    }

    /// The state after the instruction `op`, the program counter standing
    /// behind the opcode byte before and, unless the instruction moves it,
    /// after.
    pub open spec fn execute(self, op: OpCode) -> State {
        match op.mnemonic {
            Mnemonic::ADC => self.adc(op.mode),
            Mnemonic::AND => self.and(op.mode),
            Mnemonic::ASL => if op.mode == AddressingMode::NoneAddressing {
                self.asl_accumulator()
            } else {
                self.asl(op.mode)
            },
            Mnemonic::BCC => self.branch(!self.flag(CPUFlags::CARRY)),
            Mnemonic::BCS => self.branch(self.flag(CPUFlags::CARRY)),
            Mnemonic::BEQ => self.branch(self.flag(CPUFlags::ZERO)),
            Mnemonic::BIT => self.bit(op.mode),
            Mnemonic::BMI => self.branch(self.flag(CPUFlags::NEGATIVE)),
            Mnemonic::BNE => self.branch(!self.flag(CPUFlags::ZERO)),
            Mnemonic::BPL => self.branch(!self.flag(CPUFlags::NEGATIVE)),
            Mnemonic::BRK => self,
            Mnemonic::BVC => self.branch(!self.flag(CPUFlags::OVERFLOW)),
            Mnemonic::BVS => self.branch(self.flag(CPUFlags::OVERFLOW)),
            Mnemonic::CLC => self.set_flag(CPUFlags::CARRY, false),
            Mnemonic::CLD => self.set_flag(CPUFlags::DECIMAL_MODE, false),
            Mnemonic::CLI => self.set_flag(CPUFlags::INTERRUPT_DISABLE, false),
            Mnemonic::CLV => self.set_flag(CPUFlags::OVERFLOW, false),
            Mnemonic::CMP => self.compare(op.mode, self.a),
            Mnemonic::CPX => self.compare(op.mode, self.x),
            Mnemonic::CPY => self.compare(op.mode, self.y),
            Mnemonic::DEC => self.dec(op.mode),
            Mnemonic::DEX => self.dex(),
            Mnemonic::DEY => self.dey(),
            Mnemonic::EOR => self.eor(op.mode),
            Mnemonic::INC => self.inc(op.mode),
            Mnemonic::INX => self.inx(),
            Mnemonic::INY => self.iny(),
            Mnemonic::JMP => if op.code == 0x6C {
                self.jmp_indirect()
            } else {
                self.jmp_absolute()
            },
            Mnemonic::JSR => self.jsr(),
            Mnemonic::LDA => self.lda(op.mode),
            Mnemonic::LDX => self.ldx(op.mode),
            Mnemonic::LDY => self.ldy(op.mode),
            Mnemonic::LSR => if op.mode == AddressingMode::NoneAddressing {
                self.lsr_accumulator()
            } else {
                self.lsr(op.mode)
            },
            Mnemonic::NOP => self,
            Mnemonic::ORA => self.ora(op.mode),
            Mnemonic::PHA => self.pha(),
            Mnemonic::PHP => self.php(),
            Mnemonic::PLA => self.pla(),
            Mnemonic::PLP => self.plp(),
            Mnemonic::ROL => if op.mode == AddressingMode::NoneAddressing {
                self.rol_accumulator()
            } else {
                self.rol(op.mode)
            },
            Mnemonic::ROR => if op.mode == AddressingMode::NoneAddressing {
                self.ror_accumulator()
            } else {
                self.ror(op.mode)
            },
            Mnemonic::RTI => self.rti(),
            Mnemonic::RTS => self.rts(),
            Mnemonic::SBC => self.sbc(op.mode),
            Mnemonic::SEC => self.set_flag(CPUFlags::CARRY, true),
            Mnemonic::SED => self.set_flag(CPUFlags::DECIMAL_MODE, true),
            Mnemonic::SEI => self.set_flag(CPUFlags::INTERRUPT_DISABLE, true),
            Mnemonic::STA => self.sta(op.mode),
            Mnemonic::STX => self.stx(op.mode),
            Mnemonic::STY => self.sty(op.mode),
            Mnemonic::TAX => self.tax(),
            Mnemonic::TAY => self.tay(),
            Mnemonic::TSX => self.tsx(),
            Mnemonic::TXA => self.txa(),
            Mnemonic::TXS => self.txs(),
            Mnemonic::TYA => self.tya(),
        }
    }

    /// The state after the opcode byte is fetched: the program counter stands
    /// behind it.
    pub open spec fn fetch(self) -> State {
        self.jump(wrap16(self.pc + 1))
    }

    /// The state after the instruction `op` whose opcode byte was just fetched.
    /// An instruction that leaves the program counter where the fetch put it is
    /// followed by the skip over its operand bytes; one that moves it is not.
    pub open spec fn complete(self, op: OpCode) -> State {
        let done = self.execute(op);
        if done.pc == self.pc {
            done.jump(wrap16(done.pc + op.len - 1))
        } else {
            done
        }
    }

    /// The state after one step of the dispatch loop. On a byte that is no
    /// opcode only the fetch has happened.
    pub open spec fn step(self) -> State {
        match opcode(self.read(self.pc)) {
            Some(op) => self.fetch().complete(op),
            None => self.fetch(),
        }
    }

    /// How one step of the dispatch loop ends.
    pub open spec fn step_result(self) -> Result<RunState, CpuError> {
        match opcode(self.read(self.pc)) {
            Some(op) => if op.mnemonic == Mnemonic::BRK {
                Ok(RunState::Halted)
            } else {
                Ok(RunState::Running)
            },
            None => Err(
                CpuError::UnrecognizedOpcode { code: self.read(self.pc), address: self.pc },
            ),
        }
    }

    /// The byte before the program counter is the halt instruction: what the
    /// dispatch loop leaves behind when it ends in the ordinary way.
    pub open spec fn halted(self) -> bool {
        opcode(self.read(wrap16(self.pc - 1))) matches Some(op) && op.mnemonic == Mnemonic::BRK
    }

    /// The byte `code` at `address` is no opcode, and the program counter
    /// stands behind it: what the dispatch loop leaves behind when it gives
    /// up on such a byte.
    pub open spec fn refused(self, code: u8, address: u16) -> bool {
        &&& opcode(code) is None
        &&& self.read(address) == code
        &&& self.pc == wrap16(address + 1)
    }

    /// The state after the dispatch loop has run until the halt instruction, a
    /// byte that is no opcode, or the end of `limit` steps.
    pub open spec fn run(self, limit: nat) -> State
        decreases limit,
    {
        if limit == 0 {
            self
        } else if self.step_result() == Ok::<RunState, CpuError>(RunState::Running) {
            self.step().run((limit - 1) as nat)
        } else {
            self.step()
        }
    }

    /// How that run ends.
    pub open spec fn run_result(self, limit: nat) -> Result<(), CpuError>
        decreases limit,
    {
        if limit == 0 {
            Err(CpuError::StepLimit)
        } else {
            match self.step_result() {
                Ok(RunState::Running) => self.step().run_result((limit - 1) as nat),
                Ok(RunState::Halted) => Ok(()),
                Err(e) => Err(e),
            }
        }
    }
}

} // verus!
