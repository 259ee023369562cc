//! The dispatch loop: fetch an opcode, look it up, execute it, go on.

use crate::cpu::{AddressingMode, CpuError, RunState, CPU, MEM};
use crate::flags::CPUFlags;
use crate::opcodes::{lemma_entry_shape, lookup, Family, Mnemonic, OpCode};
use crate::state::PROGRAM_MAX;
use vstd::prelude::*;

verus! {

/// The number of steps after which a run gives up, so that it returns whatever
/// the program does.
pub const STEP_LIMIT: u64 = 0xFFFF_FFFF_FFFF_FFFF;

/// The hook that does nothing.
fn idle(cpu: &mut CPU)
    ensures
        *final(cpu) == *old(cpu),
{
}

impl CPU {
    /// Executes a load, a store or a register transfer.
    fn execute_transfer(&mut self, op: &OpCode)
        requires
            op.executable(),
            op.family() == Family::Transfer,
        ensures
            final(self)@ == old(self)@.execute(*op),
    {
        match op.mnemonic {
            Mnemonic::LDA => self.lda(&op.mode),
            Mnemonic::LDX => self.ldx(&op.mode),
            Mnemonic::LDY => self.ldy(&op.mode),
            Mnemonic::STA => self.sta(&op.mode),
            Mnemonic::STX => self.stx(&op.mode),
            Mnemonic::STY => self.sty(&op.mode),
            Mnemonic::TAX => self.tax(),
            Mnemonic::TAY => self.tay(),
            Mnemonic::TSX => self.tsx(),
            Mnemonic::TXA => self.txa(),
            Mnemonic::TXS => self.txs(),
            _ => self.tya(),
        }
    }

    /// Executes an instruction of arithmetic or logic: addition and
    /// subtraction, the bitwise operations, comparisons, increments and
    /// decrements.
    fn execute_arithmetic(&mut self, op: &OpCode)
        requires
            op.executable(),
            op.family() == Family::Arithmetic,
        ensures
            final(self)@ == old(self)@.execute(*op),
    {
        match op.mnemonic {
            Mnemonic::ADC => self.adc(&op.mode),
            Mnemonic::SBC => self.sbc(&op.mode),
            Mnemonic::AND => self.and(&op.mode),
            Mnemonic::EOR => self.eor(&op.mode),
            Mnemonic::ORA => self.ora(&op.mode),
            Mnemonic::BIT => self.bit(&op.mode),
            Mnemonic::CMP => self.compare(&op.mode, self.register_a),
            Mnemonic::CPX => self.compare(&op.mode, self.register_x),
            Mnemonic::CPY => self.compare(&op.mode, self.register_y),
            Mnemonic::INC => {
                self.inc(&op.mode);
            },
            Mnemonic::DEC => {
                self.dec(&op.mode);
            },
            Mnemonic::INX => self.inx(),
            Mnemonic::INY => self.iny(),
            Mnemonic::DEX => self.dex(),
            _ => self.dey(),
        }
    }

    /// Executes a shift or a rotation, on the accumulator where the entry has
    /// no addressing mode and on memory where it has one.
    fn execute_shift(&mut self, op: &OpCode)
        requires
            op.executable(),
            op.family() == Family::Shift,
        ensures
            final(self)@ == old(self)@.execute(*op),
    {
        match op.mode {
            AddressingMode::NoneAddressing => match op.mnemonic {
                Mnemonic::ASL => self.asl_accumulator(),
                Mnemonic::LSR => self.lsr_accumulator(),
                Mnemonic::ROL => self.rol_accumulator(),
                _ => self.ror_accumulator(),
            },
            _ => match op.mnemonic {
                Mnemonic::ASL => {
                    self.asl(&op.mode);
                },
                Mnemonic::LSR => {
                    self.lsr(&op.mode);
                },
                Mnemonic::ROL => {
                    self.rol(&op.mode);
                },
                _ => {
                    self.ror(&op.mode);
                },
            },
        }
    }

    /// Executes a conditional branch.
    fn execute_branch(&mut self, op: &OpCode)
        requires
            op.family() == Family::Branch,
        ensures
            final(self)@ == old(self)@.execute(*op),
    {
        match op.mnemonic {
            Mnemonic::BCC => self.branch(!self.status.contains(CPUFlags::CARRY)),
            Mnemonic::BCS => self.branch(self.status.contains(CPUFlags::CARRY)),
            Mnemonic::BEQ => self.branch(self.status.contains(CPUFlags::ZERO)),
            Mnemonic::BNE => self.branch(!self.status.contains(CPUFlags::ZERO)),
            Mnemonic::BMI => self.branch(self.status.contains(CPUFlags::NEGATIVE)),
            Mnemonic::BPL => self.branch(!self.status.contains(CPUFlags::NEGATIVE)),
            Mnemonic::BVC => self.branch(!self.status.contains(CPUFlags::OVERFLOW)),
            _ => self.branch(self.status.contains(CPUFlags::OVERFLOW)),
        }
    }

    /// Executes a jump, a call or a return, or one of the two instructions
    /// that do nothing to the state.
    fn execute_control(&mut self, op: &OpCode)
        requires
            op.family() == Family::Control,
        ensures
            final(self)@ == old(self)@.execute(*op),
    {
        match op.mnemonic {
            Mnemonic::JMP => if op.code == 0x6C {
                self.jmp_indirect()
            } else {
                self.jmp_absolute()
            },
            Mnemonic::JSR => self.jsr(),
            Mnemonic::RTS => self.rts(),
            Mnemonic::RTI => self.rti(),
            _ => (),
        }
    }

    /// Executes a push or a pop.
    fn execute_stack(&mut self, op: &OpCode)
        requires
            op.family() == Family::Stack,
        ensures
            final(self)@ == old(self)@.execute(*op),
    {
        match op.mnemonic {
            Mnemonic::PHA => self.pha(),
            Mnemonic::PHP => self.php(),
            Mnemonic::PLA => self.pla(),
            _ => self.plp(),
        }
    }

    /// Executes an instruction that sets or clears one flag.
    fn execute_flag(&mut self, op: &OpCode)
        requires
            op.family() == Family::Flag,
        ensures
            final(self)@ == old(self)@.execute(*op),
    {
        match op.mnemonic {
            Mnemonic::CLC => self.clear_carry_flag(),
            Mnemonic::CLD => self.status.remove(CPUFlags::DECIMAL_MODE),
            Mnemonic::CLI => self.status.remove(CPUFlags::INTERRUPT_DISABLE),
            Mnemonic::CLV => self.status.remove(CPUFlags::OVERFLOW),
            Mnemonic::SEC => self.set_carry_flag(),
            Mnemonic::SED => self.status.insert(CPUFlags::DECIMAL_MODE),
            _ => self.status.insert(CPUFlags::INTERRUPT_DISABLE),
        }
    }

    /// Executes the instruction `op`, whose opcode byte was just fetched: the
    /// program counter stands at the operand bytes.
    pub fn execute(&mut self, op: &OpCode)
        requires
            op.executable(),
        ensures
            final(self)@ == old(self)@.execute(*op),
    {
        match op.mnemonic {
            Mnemonic::LDA
            | Mnemonic::LDX
            | Mnemonic::LDY
            | Mnemonic::STA
            | Mnemonic::STX
            | Mnemonic::STY
            | Mnemonic::TAX
            | Mnemonic::TAY
            | Mnemonic::TSX
            | Mnemonic::TXA
            | Mnemonic::TXS
            | Mnemonic::TYA => self.execute_transfer(op),
            Mnemonic::ADC
            | Mnemonic::SBC
            | Mnemonic::AND
            | Mnemonic::EOR
            | Mnemonic::ORA
            | Mnemonic::BIT
            | Mnemonic::CMP
            | Mnemonic::CPX
            | Mnemonic::CPY
            | Mnemonic::INC
            | Mnemonic::DEC
            | Mnemonic::INX
            | Mnemonic::INY
            | Mnemonic::DEX
            | Mnemonic::DEY => self.execute_arithmetic(op),
            Mnemonic::ASL | Mnemonic::LSR | Mnemonic::ROL | Mnemonic::ROR => self.execute_shift(op),
            Mnemonic::BCC
            | Mnemonic::BCS
            | Mnemonic::BEQ
            | Mnemonic::BNE
            | Mnemonic::BMI
            | Mnemonic::BPL
            | Mnemonic::BVC
            | Mnemonic::BVS => self.execute_branch(op),
            Mnemonic::JMP
            | Mnemonic::JSR
            | Mnemonic::RTS
            | Mnemonic::RTI
            | Mnemonic::BRK
            | Mnemonic::NOP => self.execute_control(op),
            Mnemonic::PHA | Mnemonic::PHP | Mnemonic::PLA | Mnemonic::PLP => self.execute_stack(op),
            Mnemonic::CLC
            | Mnemonic::CLD
            | Mnemonic::CLI
            | Mnemonic::CLV
            | Mnemonic::SEC
            | Mnemonic::SED
            | Mnemonic::SEI => self.execute_flag(op),
        }
    }

    /// One step of the dispatch loop: fetches the opcode byte at the program
    /// counter and executes the instruction it selects. An instruction that
    /// does not move the program counter itself is followed by the skip over
    /// its operand bytes.
    ///
    /// Returns `Halted` after the halt instruction, and the error for a byte
    /// that is no opcode; then only the fetch has happened.
    pub fn step(&mut self) -> (result: Result<RunState, CpuError>)
        ensures
            final(self)@ == old(self)@.step(),
            result == old(self)@.step_result(),
    {
        let address: u16 = self.program_counter;
        let code: u8 = self.mem_read(address);
        self.program_counter = address.wrapping_add(1);
        let program_counter_state: u16 = self.program_counter;

        match lookup(code) {
            None => Err(CpuError::UnrecognizedOpcode { code, address }),
            Some(op) => {
                proof {
                    lemma_entry_shape(code);
                }
                self.execute(&op);
                if program_counter_state == self.program_counter {
                    self.program_counter = self.program_counter.wrapping_add((op.len - 1) as u16);
                }
                match op.mnemonic {
                    Mnemonic::BRK => Ok(RunState::Halted),
                    _ => Ok(RunState::Running),
                }
            },
        }
    }

    /// Runs the dispatch loop until the halt instruction.
    ///
    /// Stops with an error at a byte that is no opcode, and after `STEP_LIMIT`
    /// steps.
    pub fn run(&mut self) -> (result: Result<(), CpuError>)
        ensures
            final(self)@ == old(self)@.run(STEP_LIMIT as nat),
            result == old(self)@.run_result(STEP_LIMIT as nat),
    {
        self.run_with_callback(idle)
    }

    /// Runs the dispatch loop until the halt instruction, but for no more than
    /// `limit` steps.
    pub fn run_steps(&mut self, limit: u64) -> (result: Result<(), CpuError>)
        ensures
            final(self)@ == old(self)@.run(limit as nat),
            result == old(self)@.run_result(limit as nat),
    {
        self.run_steps_with_callback(limit, idle)
    }

    /// Runs the dispatch loop until the halt instruction, calling `callback`
    /// before each fetch. The hook may change the processor as it likes.
    ///
    /// Whatever the hook does, `Ok` means that the halt instruction was the
    /// last one executed, and an unrecognized-opcode error names a byte that
    /// is no opcode and where it stands. With a hook that changes nothing, the
    /// run is the run without a hook.
    pub fn run_with_callback<F>(&mut self, callback: F) -> (result: Result<(), CpuError>) where
        F: FnMut(&mut CPU),

        requires
            forall|cpu: &mut CPU| call_requires(callback, (cpu,)),
        ensures
            result is Ok ==> final(self)@.halted(),
            result matches Err(CpuError::UnrecognizedOpcode { code, address })
                ==> final(self)@.refused(code, address),
            (forall|cpu: &mut CPU| call_ensures(callback, (cpu,), ()) ==> *final(cpu) == *cpu) ==> {
                &&& final(self)@ == old(self)@.run(STEP_LIMIT as nat)
                &&& result == old(self)@.run_result(STEP_LIMIT as nat)
            },
    {
        self.run_steps_with_callback(STEP_LIMIT, callback)
    }

    /// As `run_with_callback`, but for no more than `limit` steps.
    #[verifier::loop_isolation(false)]
    pub fn run_steps_with_callback<F>(&mut self, limit: u64, mut callback: F) -> (result: Result<
        (),
        CpuError,
    >) where F: FnMut(&mut CPU)
        requires
            forall|cpu: &mut CPU| call_requires(callback, (cpu,)),
        ensures
            result is Ok ==> final(self)@.halted(),
            result matches Err(CpuError::UnrecognizedOpcode { code, address })
                ==> final(self)@.refused(code, address),
            (forall|cpu: &mut CPU| call_ensures(callback, (cpu,), ()) ==> *final(cpu) == *cpu) ==> {
                &&& final(self)@ == old(self)@.run(limit as nat)
                &&& result == old(self)@.run_result(limit as nat)
            },
    {
        let ghost hook = callback;
        let mut steps: u64 = 0;
        while steps < limit
            invariant
                callback == hook,
                steps <= limit,
                (forall|cpu: &mut CPU| call_ensures(hook, (cpu,), ()) ==> *final(cpu) == *cpu) ==> {
                    &&& old(self)@.run(limit as nat) == self@.run((limit - steps) as nat)
                    &&& old(self)@.run_result(limit as nat) == self@.run_result(
                        (limit - steps) as nat,
                    )
                },
            decreases limit - steps,
        {
            callback(self);
            proof {
                if self@.step_result() is Ok {
                    lemma_entry_shape(self@.read(self@.pc));
                }
            }
            match self.step() {
                Ok(RunState::Running) => {},
                Ok(RunState::Halted) => {
                    return Ok(());
                },
                Err(e) => {
                    return Err(e);
                },
            }
            steps = steps + 1;
        }
        Err(CpuError::StepLimit)
    }

    /// Loads `program`, resets the processor and runs the program.
    pub fn load_and_run(&mut self, program: Vec<u8>) -> (result: Result<(), CpuError>)
        requires
            program.len() <= PROGRAM_MAX,
        ensures
            final(self)@ == old(self)@.load(program@).reset().run(STEP_LIMIT as nat),
            result == old(self)@.load(program@).reset().run_result(STEP_LIMIT as nat),
    {
        self.load(program);
        self.reset();
        self.run()
    }
}

} // verus!
