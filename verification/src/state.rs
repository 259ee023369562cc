//! The processor as a mathematical value: registers, flags and the whole
//! address space. Every contract of the processor is stated over this model.

use crate::arith::{high_byte, low_byte, word, wrap16, wrap8};
use crate::cpu::AddressingMode;
use crate::flags::CPUFlags;
use vstd::prelude::*;

verus! {

/// The number of bytes in the address space.
pub const MEMORY_SIZE: usize = 0x10000;

/// The first address of the stack page.
pub const STACK: u16 = 0x0100;

/// The stack pointer after a reset.
pub const STACK_RESET: u8 = 0xFD;

/// The status byte after a reset: Interrupt-Disable and Unused.
pub const STATUS_RESET: u8 = 0b0010_0100;

/// Where a loaded program starts.
pub const PROGRAM_START: u16 = 0x0600;

/// Where the address that a reset jumps to is kept.
pub const RESET_VECTOR: u16 = 0xFFFC;

/// The longest program that fits between `PROGRAM_START` and the end of the
/// address space.
pub const PROGRAM_MAX: usize = 0xFA00;

/// `mem` with `bytes` placed at `start` and the following addresses.
pub open spec fn place(mem: Seq<u8>, start: int, bytes: Seq<u8>) -> Seq<u8> {
    Seq::new(
        mem.len(),
        |i: int|
            if start <= i < start + bytes.len() {
                bytes[i - start]
            } else {
                mem[i]
            },
    )
}

/// The sixteen-bit word stored at `addr`, low byte first. The high byte of a
/// word at the last address is the byte at address zero.
pub open spec fn read_u16(mem: Seq<u8>, addr: u16) -> u16 {
    word(mem[addr as int], mem[wrap16(addr + 1) as int])
}

/// `mem` after `data` is stored at `addr`, low byte first.
pub open spec fn write_u16(mem: Seq<u8>, addr: u16, data: u16) -> Seq<u8> {
    mem.update(addr as int, low_byte(data)).update(wrap16(addr + 1) as int, high_byte(data))
}

/// The state of the processor.
#[verifier::ext_equal]
pub struct State {
    /// The accumulator.
    pub a: u8,
    /// Index register X.
    pub x: u8,
    /// Index register Y.
    pub y: u8,
    /// The status register.
    pub status: CPUFlags,
    /// The address of the next byte to fetch.
    pub pc: u16,
    /// The stack pointer, an offset into page one.
    pub sp: u8,
    /// The address space, one byte per address.
    pub mem: Seq<u8>,
}

impl State {
    /// The address space has a byte for each sixteen-bit address.
    pub open spec fn wf(self) -> bool {
        self.mem.len() == MEMORY_SIZE
    }

    /// The state of a processor that was just made: every register and every
    /// byte of memory is zero, but for the stack pointer and the status
    /// register, which are as after a reset.
    pub open spec fn power_on() -> State {
        State {
            a: 0,
            x: 0,
            y: 0,
            status: CPUFlags { bits: STATUS_RESET },
            pc: 0,
            sp: STACK_RESET,
            mem: Seq::new(MEMORY_SIZE as nat, |i: int| 0u8),
        }
    }

    /// The state after `program` is placed at `PROGRAM_START` and the reset
    /// vector is then pointed at it.
    pub open spec fn load(self, program: Seq<u8>) -> State {
        State { mem: place(self.mem, PROGRAM_START as int, program), ..self }.write_u16(
            RESET_VECTOR,
            PROGRAM_START,
        )
    }

    /// The state after a reset: memory is kept, and the program counter is
    /// read from the reset vector.
    pub open spec fn reset(self) -> State {
        State {
            a: 0,
            x: 0,
            y: 0,
            status: CPUFlags { bits: STATUS_RESET },
            pc: self.read_u16(RESET_VECTOR),
            sp: STACK_RESET,
            mem: self.mem,
        }
    }

    /// The byte at `addr`.
    pub open spec fn read(self, addr: u16) -> u8 {
        self.mem[addr as int]
    }

    /// The word at `addr`, low byte first.
    pub open spec fn read_u16(self, addr: u16) -> u16 {
        read_u16(self.mem, addr)
    }

    /// The state after `value` is stored at `addr`.
    pub open spec fn write(self, addr: u16, value: u8) -> State {
        State { mem: self.mem.update(addr as int, value), ..self }
    }

    /// The state after the word `data` is stored at `addr`, low byte first.
    pub open spec fn write_u16(self, addr: u16, data: u16) -> State {
        State { mem: write_u16(self.mem, addr, data), ..self }
    }

    /// The state with the program counter at `pc`.
    pub open spec fn jump(self, pc: u16) -> State {
        State { pc, ..self }
    }

    /// The address of the operand of the instruction whose operand bytes start
    /// at the program counter. `NoneAddressing` has no operand, and no address
    /// is defined for it.
    pub open spec fn operand_address(self, mode: AddressingMode) -> u16 {
        match mode {
            AddressingMode::Immediate => self.pc,
            AddressingMode::ZeroPage => self.read(self.pc) as u16,
            AddressingMode::ZeroPage_X => wrap8(self.read(self.pc) + self.x) as u16,
            AddressingMode::ZeroPage_Y => wrap8(self.read(self.pc) + self.y) as u16,
            AddressingMode::Absolute => self.read_u16(self.pc),
            AddressingMode::Absolute_X => wrap16(self.read_u16(self.pc) + self.x),
            AddressingMode::Absolute_Y => wrap16(self.read_u16(self.pc) + self.y),
            AddressingMode::Indirect_X => {
                let ptr = wrap8(self.read(self.pc) + self.x);
                word(self.read(ptr as u16), self.read(wrap8(ptr + 1) as u16))
            },
            AddressingMode::Indirect_Y => {
                let ptr = self.read(self.pc);
                let base = word(self.read(ptr as u16), self.read(wrap8(ptr + 1) as u16));
                wrap16(base + self.y)
            },
            AddressingMode::NoneAddressing => arbitrary(),
        }
    }

    /// The operand itself.
    pub open spec fn operand(self, mode: AddressingMode) -> u8 {
        self.read(self.operand_address(mode))
    }

    /// The address in page one that the stack pointer names.
    pub open spec fn stack_address(self) -> u16 {
        (STACK + self.sp) as u16
    }

    /// The state after `data` is pushed: it is stored where the stack pointer
    /// points, and the pointer moves down by one, from `0x00` to `0xFF`.
    pub open spec fn stack_push(self, data: u8) -> State {
        State { sp: wrap8(self.sp - 1), ..self.write(self.stack_address(), data) }
    }

    /// The state after a byte is popped: the pointer moves up by one, from
    /// `0xFF` to `0x00`. Memory keeps the byte.
    pub open spec fn stack_pop(self) -> State {
        State { sp: wrap8(self.sp + 1), ..self }
    }

    /// The byte that a pop returns.
    pub open spec fn stack_top(self) -> u8 {
        self.stack_pop().read(self.stack_pop().stack_address())
    }

    /// The state after a word is pushed, high byte first.
    pub open spec fn stack_push_u16(self, data: u16) -> State {
        self.stack_push(high_byte(data)).stack_push(low_byte(data))
    }

    /// The state after a word is popped.
    pub open spec fn stack_pop_u16(self) -> State {
        self.stack_pop().stack_pop()
    }

    /// The word that popping two bytes returns, low byte first.
    pub open spec fn stack_top_u16(self) -> u16 {
        word(self.stack_top(), self.stack_pop().stack_top())
    }

    /// The flag named by `mask` is set.
    pub open spec fn flag(self, mask: u8) -> bool {
        self.status.has(mask)
    }

    /// The state with the flag named by `mask` set if `on` holds and cleared
    /// otherwise.
    pub open spec fn set_flag(self, mask: u8, on: bool) -> State {
        State { status: self.status.assign(mask, on), ..self }
    }

    /// The carry flag as a number.
    pub open spec fn carry(self) -> int {
        if self.flag(CPUFlags::CARRY) {
            1
        } else {
            0
        }
    }
}

} // verus!
