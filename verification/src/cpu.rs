//! The processor: its registers, its memory and the way operands are found.

use crate::arith::{high, join, low};
use crate::flags::CPUFlags;
use crate::state::{
    place, read_u16, write_u16, State, MEMORY_SIZE, PROGRAM_MAX, PROGRAM_START, RESET_VECTOR, STACK,
    STACK_RESET, STATUS_RESET,
};
use vstd::pervasive::unreached;
use vstd::prelude::*;

verus! {

/// How an instruction finds its operand.
#[derive(Clone, Copy, Debug, PartialEq, Eq, Structural)]
#[allow(non_camel_case_types)]
pub enum AddressingMode {
    /// The operand is the byte after the opcode.
    Immediate,
    /// The byte after the opcode is an address in page zero.
    ZeroPage,
    /// A page-zero address plus X, staying in page zero.
    ZeroPage_X,
    /// A page-zero address plus Y, staying in page zero.
    ZeroPage_Y,
    /// The two bytes after the opcode are the address.
    Absolute,
    /// An absolute address plus X.
    Absolute_X,
    /// An absolute address plus Y.
    Absolute_Y,
    /// The address is read from page zero at the operand byte plus X.
    Indirect_X,
    /// The address is read from page zero at the operand byte, then Y is added.
    Indirect_Y,
    /// The instruction has no operand in memory.
    NoneAddressing,
}

/// The processor.
pub struct CPU {
    /// The accumulator.
    pub register_a: u8,
    /// Index register X.
    pub register_x: u8,
    /// Index register Y.
    pub register_y: u8,
    /// The status register.
    pub status: CPUFlags,
    /// The address of the next byte to fetch.
    pub program_counter: u16,
    /// The stack pointer, an offset into the stack page.
    pub stack_pointer: u8,
    /// The address space. Every array of this length is a valid memory, so
    /// nothing is lost by showing it.
    pub memory: [u8; MEMORY_SIZE],
}

impl View for CPU {
    type V = State;

    open spec fn view(&self) -> State {
        State {
            a: self.register_a,
            x: self.register_x,
            y: self.register_y,
            status: self.status,
            pc: self.program_counter,
            sp: self.stack_pointer,
            mem: self.memory@,
        }
    }
}

/// Byte-wise access to an address space of `MEMORY_SIZE` bytes, and the access
/// to sixteen-bit words that follows from it.
pub trait MEM {
    /// The address space, one byte per address.
    spec fn address_space(&self) -> Seq<u8>;

    /// The byte at `addr`.
    fn mem_read(&self, addr: u16) -> (value: u8)
        requires
            self.address_space().len() == MEMORY_SIZE,
        ensures
            value == self.address_space()[addr as int],
    ;

    /// Stores `value` at `addr`.
    fn mem_write(&mut self, addr: u16, value: u8)
        requires
            old(self).address_space().len() == MEMORY_SIZE,
        ensures
            final(self).address_space() == old(self).address_space().update(addr as int, value),
    ;

    /// The word at `pos`, low byte first.
    fn mem_read_u16(&self, pos: u16) -> (value: u16)
        requires
            self.address_space().len() == MEMORY_SIZE,
        ensures
            value == read_u16(self.address_space(), pos),
    {
        let lo: u8 = self.mem_read(pos);
        let hi: u8 = self.mem_read(pos.wrapping_add(1));
        join(lo, hi)
    }

    /// Stores the word `data` at `pos`, low byte first.
    fn mem_write_u16(&mut self, pos: u16, data: u16)
        requires
            old(self).address_space().len() == MEMORY_SIZE,
        ensures
            final(self).address_space() == write_u16(old(self).address_space(), pos, data),
    {
        let hi: u8 = high(data);
        let lo: u8 = low(data);
        self.mem_write(pos, lo);
        self.mem_write(pos.wrapping_add(1), hi);
    }
}

impl MEM for CPU {
    open spec fn address_space(&self) -> Seq<u8> {
        self.memory@
    }

    /// The byte at `addr`.
    fn mem_read(&self, addr: u16) -> (value: u8)
        ensures
            value == self@.read(addr),
    {
        self.memory[addr as usize]
    }

    /// Stores `value` at `addr`. The registers are left alone.
    fn mem_write(&mut self, addr: u16, value: u8)
        ensures
            final(self)@ == old(self)@.write(addr, value),
    {
        self.memory[addr as usize] = value;
    }

    /// Stores the word `data` at `pos`, low byte first. Written out here so
    /// that it can say that the registers are left alone.
    fn mem_write_u16(&mut self, pos: u16, data: u16)
        ensures
            final(self)@ == old(self)@.write_u16(pos, data),
    {
        let hi: u8 = high(data);
        let lo: u8 = low(data);
        self.mem_write(pos, lo);
        self.mem_write(pos.wrapping_add(1), hi);
    }
}

impl CPU {
    /// The model of a processor always has the whole address space.
    pub proof fn lemma_view_wf(&self)
        ensures
            self@.wf(),
    {
    }

    /// A processor with every register and every byte of memory zero, but for
    /// the stack pointer and the status register, which are as after a reset.
    pub fn new() -> (cpu: CPU)
        ensures
            cpu@ == State::power_on(),
    {
        let cpu = CPU {
            register_a: 0,
            register_x: 0,
            register_y: 0,
            stack_pointer: STACK_RESET,
            program_counter: 0,
            status: CPUFlags::from_bits_truncate(STATUS_RESET),
            memory: [0; MEMORY_SIZE],
        };
        assert(cpu.memory@ =~= State::power_on().mem);
        cpu
    }

    /// Places `program` at `PROGRAM_START` and points the reset vector at it.
    /// The program has to fit before the end of the address space.
    pub fn load(&mut self, program: Vec<u8>)
        requires
            program.len() <= PROGRAM_MAX,
        ensures
            final(self)@ == old(self)@.load(program@),
    {
        let n: usize = program.len();
        let mut i: usize = 0;
        while i < n
            invariant
                n == program.len(),
                n <= PROGRAM_MAX,
                i <= n,
                self@ == (State {
                    mem: place(
                        old(self)@.mem,
                        PROGRAM_START as int,
                        program@.take(i as int),
                    ),
                    ..old(self)@
                }),
            decreases n - i,
        {
            self.memory[PROGRAM_START as usize + i] = program[i];
            assert(self.memory@ =~= place(
                old(self)@.mem,
                PROGRAM_START as int,
                program@.take(i + 1),
            ));
            i = i + 1;
        }
        assert(program@.take(n as int) =~= program@);
        self.mem_write_u16(RESET_VECTOR, PROGRAM_START);
    }

    /// Puts the registers into their initial state and reads the program
    /// counter from the reset vector. Memory is kept.
    pub fn reset(&mut self)
        ensures
            final(self)@ == old(self)@.reset(),
    {
        self.register_a = 0;
        self.register_x = 0;
        self.register_y = 0;
        self.stack_pointer = STACK_RESET;
        self.status = CPUFlags::from_bits_truncate(STATUS_RESET);
        self.program_counter = self.mem_read_u16(RESET_VECTOR);
    }

    /// The address of the operand of the instruction whose operand bytes start
    /// at the program counter. An instruction without an operand has none to
    /// resolve.
    pub fn get_operand_address(&self, mode: &AddressingMode) -> (addr: u16)
        requires
            *mode != AddressingMode::NoneAddressing,
        ensures
            addr == self@.operand_address(*mode),
    {
        match mode {
            AddressingMode::Immediate => self.program_counter,
            AddressingMode::ZeroPage => self.mem_read(self.program_counter) as u16,
            AddressingMode::ZeroPage_X => {
                let pos: u8 = self.mem_read(self.program_counter);
                pos.wrapping_add(self.register_x) as u16
            },
            AddressingMode::ZeroPage_Y => {
                let pos: u8 = self.mem_read(self.program_counter);
                pos.wrapping_add(self.register_y) as u16
            },
            AddressingMode::Absolute => self.mem_read_u16(self.program_counter),
            AddressingMode::Absolute_X => {
                let base: u16 = self.mem_read_u16(self.program_counter);
                base.wrapping_add(self.register_x as u16)
            },
            AddressingMode::Absolute_Y => {
                let base: u16 = self.mem_read_u16(self.program_counter);
                base.wrapping_add(self.register_y as u16)
            },
            AddressingMode::Indirect_X => {
                let base: u8 = self.mem_read(self.program_counter);
                let ptr: u8 = base.wrapping_add(self.register_x);
                let lo: u8 = self.mem_read(ptr as u16);
                let hi: u8 = self.mem_read(ptr.wrapping_add(1) as u16);
                join(lo, hi)
            },
            AddressingMode::Indirect_Y => {
                let base: u8 = self.mem_read(self.program_counter);
                let lo: u8 = self.mem_read(base as u16);
                let hi: u8 = self.mem_read(base.wrapping_add(1) as u16);
                let deref_base: u16 = join(lo, hi);
                deref_base.wrapping_add(self.register_y as u16)
            },
            AddressingMode::NoneAddressing => unreached(),
        }
    }

    /// Pops a byte off the stack.
    pub fn stack_pop(&mut self) -> (data: u8)
        ensures
            final(self)@ == old(self)@.stack_pop(),
            data == old(self)@.stack_top(),
    {
        self.stack_pointer = self.stack_pointer.wrapping_add(1);
        self.mem_read(STACK + self.stack_pointer as u16)
    }

    /// Pops a word off the stack, low byte first.
    pub fn stack_pop_u16(&mut self) -> (data: u16)
        ensures
            final(self)@ == old(self)@.stack_pop_u16(),
            data == old(self)@.stack_top_u16(),
    {
        let lo: u8 = self.stack_pop();
        let hi: u8 = self.stack_pop();
        join(lo, hi)
    }

    /// Pushes a byte onto the stack.
    pub fn stack_push(&mut self, data: u8)
        ensures
            final(self)@ == old(self)@.stack_push(data),
    {
        self.mem_write(STACK + self.stack_pointer as u16, data);
        self.stack_pointer = self.stack_pointer.wrapping_sub(1);
    }

    /// Pushes a word onto the stack, high byte first.
    pub fn stack_push_u16(&mut self, data: u16)
        ensures
            final(self)@ == old(self)@.stack_push_u16(data),
    {
        let hi: u8 = high(data);
        let lo: u8 = low(data);
        self.stack_push(hi);
        self.stack_push(lo);
    }

    /// Sets the carry flag.
    pub fn set_carry_flag(&mut self)
        ensures
            final(self)@ == old(self)@.set_flag(CPUFlags::CARRY, true),
    {
        self.status.insert(CPUFlags::CARRY)
    }

    /// Clears the carry flag.
    pub fn clear_carry_flag(&mut self)
        ensures
            final(self)@ == old(self)@.set_flag(CPUFlags::CARRY, false),
    {
        self.status.remove(CPUFlags::CARRY)
    }
}

/// Whether the processor goes on fetching instructions.
#[derive(Clone, Copy, Debug, PartialEq, Eq, Structural)]
pub enum RunState {
    /// The next instruction is fetched.
    Running,
    /// The halt instruction was executed. Nothing follows.
    Halted,
}

/// Why execution stopped short of the halt instruction.
#[derive(Clone, Copy, Debug, PartialEq, Eq, Structural)]
pub enum CpuError {
    /// The byte fetched at `address` is no opcode of this processor.
    UnrecognizedOpcode { code: u8, address: u16 },
    /// The step limit was reached before the program halted.
    StepLimit,
}

} // verus!
