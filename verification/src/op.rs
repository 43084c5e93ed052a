//! The sixteen operations of the instruction set.

use vstd::prelude::*;

verus! {

/// An operation, named by the top four bits of an instruction word.
#[derive(Debug, Clone, Copy, PartialEq, Eq, Structural)]
pub enum Op {
    /// Branch on condition codes.
    BR,
    /// Add.
    ADD,
    /// Load, PC-relative.
    LD,
    /// Store, PC-relative.
    ST,
    /// Jump to subroutine.
    JSR,
    /// Bitwise and.
    AND,
    /// Load, base plus offset.
    LDR,
    /// Store, base plus offset.
    STR,
    /// Return from interrupt.
    RTI,
    /// Bitwise complement.
    NOT,
    /// Load indirect.
    LDI,
    /// Store indirect.
    STI,
    /// Jump.
    JMP,
    /// Reserved: executing it is an illegal-opcode exception.
    RES,
    /// Load effective address.
    LEA,
    /// System call through the trap vector table.
    TRAP,
}

impl Op {
    /// The operation's four-bit code.
    pub open spec fn code(self) -> u16 {
        match self {
            Op::BR => 0,
            Op::ADD => 1,
            Op::LD => 2,
            Op::ST => 3,
            Op::JSR => 4,
            Op::AND => 5,
            Op::LDR => 6,
            Op::STR => 7,
            Op::RTI => 8,
            Op::NOT => 9,
            Op::LDI => 10,
            Op::STI => 11,
            Op::JMP => 12,
            Op::RES => 13,
            Op::LEA => 14,
            Op::TRAP => 15,
        }
    }

    /// The operation that an instruction word selects: the one whose code is
    /// the word's bits 15 to 12.
    pub open spec fn of_word(word: u16) -> Op {
        let code = word >> 12;
        if code == 0 {
            Op::BR
        } else if code == 1 {
            Op::ADD
        } else if code == 2 {
            Op::LD
        } else if code == 3 {
            Op::ST
        } else if code == 4 {
            Op::JSR
        } else if code == 5 {
            Op::AND
        } else if code == 6 {
            Op::LDR
        } else if code == 7 {
            Op::STR
        } else if code == 8 {
            Op::RTI
        } else if code == 9 {
            Op::NOT
        } else if code == 10 {
            Op::LDI
        } else if code == 11 {
            Op::STI
        } else if code == 12 {
            Op::JMP
        } else if code == 13 {
            Op::RES
        } else if code == 14 {
            Op::LEA
        } else {
            Op::TRAP
        }
    }

    /// Whether the operation writes a register and sets the condition codes
    /// from it.
    pub open spec fn sets_cc(self) -> bool {
        match self {
            Op::ADD | Op::AND | Op::NOT | Op::LD | Op::LDI | Op::LDR | Op::LEA => true,
            _ => false,
        }
    }

    /// Decodes the operation of an instruction word.
    pub fn decode(word: u16) -> (op: Op)
        ensures
            op == Op::of_word(word),
            op.code() == word >> 12,
    {
        let code: u16 = word >> 12;
        assert(word >> 12 < 16) by (bit_vector);
        match code {
            0 => Op::BR,
            1 => Op::ADD,
            2 => Op::LD,
            3 => Op::ST,
            4 => Op::JSR,
            5 => Op::AND,
            6 => Op::LDR,
            7 => Op::STR,
            8 => Op::RTI,
            9 => Op::NOT,
            10 => Op::LDI,
            11 => Op::STI,
            12 => Op::JMP,
            13 => Op::RES,
            14 => Op::LEA,
            _ => Op::TRAP,
        }
    }
}

} // verus!
