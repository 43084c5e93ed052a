//! The machine as a mathematical value, and its transitions.
//!
//! Every executable operation of [`crate::vm::Vm`] is specified as one of the
//! functions below applied to the machine's view.

use vstd::prelude::*;
use crate::op::Op;
use crate::word::sext_spec;

verus! {

/// Keyboard status register: bit 15 says that a character is waiting, bit 14
/// enables the keyboard interrupt.
pub const KBSR: u16 = 0xfe00;

/// Keyboard data register: the character last taken from the keyboard.
pub const KBDR: u16 = 0xfe02;

/// Display status register: bit 15 says that the display is ready.
pub const DSR: u16 = 0xfe04;

/// Display data register: a store sends the word's low byte to the display.
pub const DDR: u16 = 0xfe06;

/// Machine control register: the machine runs while bit 15 is set.
pub const MCR: u16 = 0xfffe;

/// Number of words of memory.
pub const MEM: usize = 0x10000;

/// Condition code "negative".
pub const CC_N: u16 = 0b100;

/// Condition code "zero".
pub const CC_Z: u16 = 0b010;

/// Condition code "positive".
pub const CC_P: u16 = 0b001;

/// Where the supervisor stack starts when user code is interrupted.
pub const SUPERVISOR_STACK: u16 = 0x3000;

/// Vector of the privilege-mode exception.
pub const VEC_PRIVILEGE: u16 = 0x00;

/// Vector of the illegal-opcode exception.
pub const VEC_ILLEGAL: u16 = 0x01;

/// Vector of the keyboard interrupt.
pub const VEC_KEYBOARD: u16 = 0x80;

/// Priority of the keyboard interrupt.
pub const PRIO_KEYBOARD: u16 = 4;

/// A request of a device to interrupt the running program.
#[derive(Debug, Clone, Copy, PartialEq, Eq, Structural)]
pub struct Interrupt {
    /// Index into the interrupt vector table.
    pub vector: u16,
    /// Priority level of the request.
    pub priority: u16,
}

/// Sum of two words, modulo 2^16.
pub open spec fn wadd(a: u16, b: u16) -> u16 {
    ((a + b) % 0x10000) as u16
}

/// Difference of two words, modulo 2^16.
pub open spec fn wsub(a: u16, b: u16) -> u16 {
    ((a - b) % 0x10000) as u16
}

/// The word made of a high and a low byte.
pub open spec fn be_word(hi: u8, lo: u8) -> u16 {
    (hi as u16) << 8 | (lo as u16)
}

/// The condition code that describes a word: zero, negative (bit 15 set) or
/// positive.
pub open spec fn cc_of(value: u16) -> u16 {
    if value == 0 {
        CC_Z
    } else if value >> 15 == 1 {
        CC_N
    } else {
        CC_P
    }
}

/// Whether exactly one of the three condition codes is set in a status word.
pub open spec fn one_cc(psr: u16) -> bool {
    psr & 7 == CC_N || psr & 7 == CC_Z || psr & 7 == CC_P
}

/// The address of the status register of the device that interrupts through
/// `vector`. Only the keyboard is a device; every other vector is looked up
/// in word 0.
pub open spec fn device_status(vector: u16) -> u16 {
    if vector & 0xff == VEC_KEYBOARD {
        KBSR
    } else {
        0
    }
}

/// The whole state of the machine.
pub struct Machine {
    /// Memory, 2^16 words.
    pub mem: Seq<u16>,
    /// General registers R0 to R7.
    pub reg: Seq<u16>,
    /// Address of the next instruction.
    pub pc: u16,
    /// Processor status: bit 15 user mode, bits 10 to 8 priority, bits 2 to 0
    /// condition codes.
    pub psr: u16,
    /// R6 of the user program while the supervisor runs.
    pub usp: u16,
    /// Characters typed and not yet taken by the program, oldest first.
    pub keys: Seq<u8>,
    /// Interrupt requests not yet looked at, oldest first.
    pub irqs: Seq<Interrupt>,
    /// Characters sent to the display and not yet collected, oldest first.
    pub out: Seq<u8>,
}

impl Machine {
    /// Memory and registers have their sizes, and the display is ready.
    pub open spec fn wf(self) -> bool {
        &&& self.mem.len() == MEM
        &&& self.reg.len() == 8
        &&& self.mem[DSR as int] == 0x8000
    }

    /// The machine before any image is loaded: memory is zero but for the
    /// display status and the machine control register, the program starts at
    /// 0x3000 in user mode with condition code Z.
    pub open spec fn initial() -> Machine {
        Machine {
            mem: Seq::new(MEM as nat, |a: int| if a == DSR || a == MCR { 0x8000u16 } else { 0u16 }),
            reg: Seq::new(8, |r: int| if r == 6 { KBSR } else { 0u16 }),
            pc: 0x3000,
            psr: 0x8002,
            usp: KBSR,
            keys: Seq::empty(),
            irqs: Seq::empty(),
            out: Seq::empty(),
        }
    }

    /// The register that a three-bit field selects.
    pub open spec fn r(self, field: u16) -> u16 {
        self.reg[(field & 7) as int]
    }

    /// Whether the machine is in user mode.
    pub open spec fn user(self) -> bool {
        self.psr >> 15 == 1
    }

    /// Whether the machine control register still says "run".
    pub open spec fn running(self) -> bool {
        self.mem[MCR as int] >> 15 == 1
    }

    /// The machine with one register replaced.
    pub open spec fn with_reg(self, field: u16, value: u16) -> Machine {
        Machine { reg: self.reg.update((field & 7) as int, value), ..self }
    }

    /// The machine with another program counter.
    pub open spec fn with_pc(self, pc: u16) -> Machine {
        Machine { pc, ..self }
    }

    /// The machine with another status word.
    pub open spec fn with_psr(self, psr: u16) -> Machine {
        Machine { psr, ..self }
    }

    /// A store. Plain memory, the keyboard status and the machine control
    /// register take the word; the display data register sends its low byte
    /// to the display and keeps its cell; every other device register ignores
    /// the store.
    pub open spec fn write(self, addr: u16, word: u16) -> Machine {
        if addr <= KBSR || addr == MCR {
            Machine { mem: self.mem.update(addr as int, word), ..self }
        } else if addr == DDR {
            Machine { out: self.out.push((word & 0xff) as u8), ..self }
        } else {
            self
        }
    }

    /// What a look at the keyboard does: a waiting character moves to the
    /// data register and the status register becomes 0x8000; with none
    /// waiting the status register becomes 0.
    pub open spec fn poll_keyboard(self) -> Machine {
        if self.keys.len() > 0 {
            Machine {
                mem: self.mem.update(KBDR as int, self.keys[0] as u16).update(
                    KBSR as int,
                    0x8000u16,
                ),
                keys: self.keys.subrange(1, self.keys.len() as int),
                ..self
            }
        } else {
            Machine { mem: self.mem.update(KBSR as int, 0u16), ..self }
        }
    }

    /// The machine after a load. Only a load of the keyboard status changes
    /// anything: it looks at the keyboard first.
    pub open spec fn after_read(self, addr: u16) -> Machine {
        if addr == KBSR {
            self.poll_keyboard()
        } else {
            self
        }
    }

    /// The word that a load returns.
    pub open spec fn read(self, addr: u16) -> u16 {
        self.after_read(addr).mem[addr as int]
    }

    /// The machine with the condition codes set from a register, the rest of
    /// the status word kept.
    pub open spec fn setcc(self, field: u16) -> Machine {
        self.with_psr(self.psr & !7u16 | cc_of(self.r(field)))
    }

    /// The program counter plus a sign-extended offset of `width` bits.
    pub open spec fn pc_plus(self, field: u16, width: u16) -> u16 {
        wadd(self.pc, sext_spec(field, width))
    }

    /// Entry into the supervisor through the vector table. Coming from user
    /// mode, R6 is saved and the supervisor stack starts at its base. The
    /// status word, then the program counter are pushed. An exception keeps
    /// the priority; an interrupt (`external`) installs its own. Either way
    /// the machine is then in supervisor mode with condition code Z, at the
    /// address that the table holds for the vector.
    pub open spec fn enter(self, external: bool, priority: u16, vector: u16) -> Machine {
        let base = if self.user() {
            Machine { usp: self.reg[6], reg: self.reg.update(6, SUPERVISOR_STACK), ..self }
        } else {
            self
        };
        let sp1 = wsub(base.reg[6], 1);
        let sp2 = wsub(sp1, 1);
        let pushed = Machine { reg: base.reg.update(6, sp2), ..base }.write(sp1, self.psr).write(
            sp2,
            self.pc,
        );
        let psr = if external {
            (priority & 7) << 8 | CC_Z
        } else {
            self.psr & 0x7ff8 | CC_Z
        };
        Machine { psr, pc: pushed.mem[(0x100 | vector & 0xff) as int], ..pushed }
    }

    /// Return from the supervisor: program counter and status word are popped
    /// from the stack; if the status word says user mode, R6 becomes the saved
    /// user stack pointer.
    pub open spec fn rti(self) -> Machine {
        let sp = self.reg[6];
        let m1 = self.after_read(sp);
        let pc = m1.mem[sp as int];
        let m2 = m1.after_read(wadd(sp, 1));
        let psr = m2.mem[wadd(sp, 1) as int];
        Machine {
            pc,
            psr,
            reg: m2.reg.update(
                6,
                if psr >> 15 == 1 {
                    m2.usp
                } else {
                    wadd(sp, 2)
                },
            ),
            ..m2
        }
    }

    /// The second operand of ADD and AND: the sign-extended low five bits if
    /// bit 5 of the instruction is set, else the register in its low three
    /// bits.
    pub open spec fn operand2(self, operand: u16) -> u16 {
        if (operand >> 5) & 1 == 1 {
            sext_spec(operand & 0x1f, 5)
        } else {
            self.r(operand)
        }
    }

    /// The machine after the fetch: the word at the program counter has been
    /// loaded and the program counter points behind it.
    pub open spec fn after_fetch(self) -> Machine {
        let m = self.after_read(self.pc);
        m.with_pc(wadd(self.pc, 1))
    }

    /// The effect of one operation on a machine whose program counter already
    /// points behind the instruction. `operand` holds the instruction's low
    /// twelve bits.
    pub open spec fn execute(self, op: Op, operand: u16) -> Machine {
        let dr = (operand >> 9) & 7;
        let sr = (operand >> 6) & 7;
        let near = self.pc_plus(operand & 0x1ff, 9);
        let based = wadd(self.r(sr), sext_spec(operand & 0x3f, 6));
        match op {
            Op::BR => if dr & self.psr > 0 {
                self.with_pc(near)
            } else {
                self
            },
            Op::ADD => self.with_reg(dr, wadd(self.r(sr), self.operand2(operand))).setcc(dr),
            Op::AND => self.with_reg(dr, self.r(sr) & self.operand2(operand)).setcc(dr),
            Op::NOT => self.with_reg(dr, !self.r(sr)).setcc(dr),
            Op::LD => self.after_read(near).with_reg(dr, self.read(near)).setcc(dr),
            Op::LDI => {
                let m = self.after_read(near);
                let addr = self.read(near);
                m.after_read(addr).with_reg(dr, m.read(addr)).setcc(dr)
            },
            Op::LDR => self.after_read(based).with_reg(dr, self.read(based)).setcc(dr),
            Op::LEA => self.with_reg(dr, near).setcc(dr),
            Op::ST => self.write(near, self.r(dr)),
            Op::STI => self.after_read(near).write(self.read(near), self.r(dr)),
            Op::STR => self.write(based, self.r(dr)),
            Op::JMP => self.with_pc(self.r(sr)),
            Op::JSR => {
                let linked = Machine { reg: self.reg.update(7, self.pc), ..self };
                let target = if (operand >> 11) & 1 == 0 {
                    linked.r(sr)
                } else {
                    self.pc_plus(operand & 0x7ff, 11)
                };
                linked.with_pc(target)
            },
            Op::RTI => if self.user() {
                self.enter(false, 0, VEC_PRIVILEGE)
            } else {
                self.rti()
            },
            Op::TRAP => Machine {
                reg: self.reg.update(7, self.pc),
                pc: self.mem[(operand & 0xff) as int],
                ..self
            },
            Op::RES => self.enter(false, 0, VEC_ILLEGAL),
        }
    }

    /// Whether a request interrupts the machine: its priority is above the
    /// machine's, and its device has interrupts enabled (bit 14 of its status
    /// register).
    pub open spec fn accepts(self, irq: Interrupt) -> bool {
        &&& irq.priority & 7 > (self.psr >> 8) & 7
        &&& self.mem[device_status(irq.vector) as int] & 0x4000 > 0
    }

    /// The look at the interrupt queue between two instructions: the oldest
    /// request leaves the queue, and is serviced if the machine accepts it.
    pub open spec fn service(self) -> Machine {
        if self.irqs.len() == 0 {
            self
        } else {
            let irq = self.irqs[0];
            let m = Machine { irqs: self.irqs.subrange(1, self.irqs.len() as int), ..self };
            if m.accepts(irq) {
                m.enter(true, irq.priority & 7, irq.vector & 0xff)
            } else {
                m
            }
        }
    }

    /// One turn of the machine: fetch, execute, look for an interrupt.
    pub open spec fn step(self) -> Machine {
        let word = self.read(self.pc);
        self.after_fetch().execute(Op::of_word(word), word & 0xfff).service()
    }

    /// The machine after at most `budget` turns, stopping early once the
    /// machine control register says "halt".
    pub open spec fn run(self, budget: nat) -> Machine
        decreases budget,
    {
        if budget == 0 || !self.running() {
            self
        } else {
            self.step().run((budget - 1) as nat)
        }
    }

    /// The number of turns that `run` takes with a given budget.
    pub open spec fn turns(self, budget: nat) -> nat
        decreases budget,
    {
        if budget == 0 || !self.running() {
            0
        } else {
            1 + self.step().turns((budget - 1) as nat)
        }
    }

    /// The machine after the words of an image body are stored from `origin`
    /// on, each a high byte followed by a low byte. A last single byte is
    /// left out.
    pub open spec fn load_words(self, origin: u16, body: Seq<u8>) -> Machine
        decreases body.len(),
    {
        if body.len() < 2 {
            self
        } else {
            self.write(origin, be_word(body[0], body[1])).load_words(
                wadd(origin, 1),
                body.subrange(2, body.len() as int),
            )
        }
    }

    /// The machine after an image is loaded: its first two bytes give the
    /// origin, the rest the words.
    pub open spec fn load_image(self, image: Seq<u8>) -> Machine {
        self.load_words(be_word(image[0], image[1]), image.subrange(2, image.len() as int))
    }
}

} // verus!
