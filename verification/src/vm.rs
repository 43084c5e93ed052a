//! The executable machine.

use vstd::prelude::*;
use std::collections::VecDeque;
use crate::machine::{
    one_cc, wadd, Interrupt, Machine, CC_N, CC_P, CC_Z, DDR, DSR, KBDR, KBSR, MCR, MEM,
    PRIO_KEYBOARD, SUPERVISOR_STACK, VEC_ILLEGAL, VEC_KEYBOARD, VEC_PRIVILEGE,
};
use crate::op::Op;
use crate::word::{lemma_field_bounds, sext};

verus! {

/// An LC-3 machine: memory, registers, and the queues that join it to the
/// keyboard and the display.
pub struct Vm {
    mem: Vec<u16>,
    reg: Vec<u16>,
    pc: u16,
    psr: u16,
    usp: u16,
    keys: VecDeque<u8>,
    irqs: VecDeque<Interrupt>,
    out: Vec<u8>,
}

impl View for Vm {
    type V = Machine;

    closed spec fn view(&self) -> Machine {
        Machine {
            mem: self.mem@,
            reg: self.reg@,
            pc: self.pc,
            psr: self.psr,
            usp: self.usp,
            keys: self.keys@,
            irqs: self.irqs@,
            out: self.out@,
        }
    }
}

impl Vm {
    /// The machine's sizes are right and its display is ready.
    pub open spec fn wf(&self) -> bool {
        self@.wf()
    }

    /// A machine with empty memory and empty queues, about to run from 0x3000
    /// in user mode.
    pub fn new() -> (vm: Vm)
        ensures
            vm.wf(),
            vm@ == Machine::initial(),
    {
        let mut mem: Vec<u16> = vec![0u16; MEM];
        mem.set(DSR as usize, 0x8000);
        mem.set(MCR as usize, 0x8000);
        let mut reg: Vec<u16> = vec![0u16; 8];
        reg.set(6, KBSR);
        let vm = Vm {
            mem,
            reg,
            pc: 0x3000,
            psr: 0x8002,
            usp: KBSR,
            keys: VecDeque::new(),
            irqs: VecDeque::new(),
            out: Vec::new(),
        };
        assert(vm@.mem =~= Machine::initial().mem);
        assert(vm@.reg =~= Machine::initial().reg);
        vm
    }

    /// The program counter.
    pub fn pc(&self) -> (pc: u16)
        ensures
            pc == self@.pc,
    {
        self.pc
    }

    /// The processor status word.
    pub fn psr(&self) -> (psr: u16)
        ensures
            psr == self@.psr,
    {
        self.psr
    }

    /// The saved user stack pointer.
    pub fn usp(&self) -> (usp: u16)
        ensures
            usp == self@.usp,
    {
        self.usp
    }

    /// The word in a memory cell, read without any device taking notice.
    pub fn peek(&self, addr: u16) -> (word: u16)
        requires
            self.wf(),
        ensures
            word == self@.mem[addr as int],
    {
        self.mem[addr as usize]
    }

    /// Whether the machine control register says "run".
    pub fn running(&self) -> (on: bool)
        requires
            self.wf(),
        ensures
            on == self@.running(),
    {
        self.mem[MCR as usize] >> 15 == 1
    }

    /// The register that the low three bits of `r` select.
    pub fn reg(&self, r: u16) -> (word: u16)
        requires
            self.wf(),
        ensures
            word == self@.r(r),
    {
        proof {
            lemma_field_bounds(r);
        }
        self.reg[(r & 7) as usize]
    }

    /// Writes the register that the low three bits of `r` select.
    pub fn set_reg(&mut self, r: u16, word: u16)
        requires
            old(self).wf(),
        ensures
            final(self).wf(),
            final(self)@ == old(self)@.with_reg(r, word),
    {
        proof {
            lemma_field_bounds(r);
        }
        self.reg.set((r & 7) as usize, word);
    }

    /// Replaces the processor status word.
    pub fn set_psr(&mut self, psr: u16)
        ensures
            final(self)@ == old(self)@.with_psr(psr),
    {
        self.psr = psr;
    }

    /// Continues the program at `addr`.
    pub fn jmp(&mut self, addr: u16)
        ensures
            final(self)@ == old(self)@.with_pc(addr),
    {
        self.pc = addr;
    }

    /// The program counter plus the sign-extended `width`-bit field `field`.
    pub fn calci(&self, field: u16, width: u16) -> (addr: u16)
        requires
            1 <= width <= 16,
        ensures
            addr == self@.pc_plus(field, width),
    {
        self.pc.wrapping_add(sext(field, width))
    }

    /// Stores a word. Plain memory, the keyboard status and the machine
    /// control register take it; the display data register sends its low
    /// byte to the display; the other device registers ignore it.
    pub fn store(&mut self, addr: u16, word: u16)
        requires
            old(self).wf(),
        ensures
            final(self).wf(),
            final(self)@ == old(self)@.write(addr, word),
    {
        if addr <= KBSR || addr == MCR {
            self.mem.set(addr as usize, word);
        } else if addr == DDR {
            assert(word & 0xff < 0x100) by (bit_vector);
            self.out.push((word & 0xff) as u8);
        }
    }

    /// Loads a word. A load of the keyboard status first looks at the
    /// keyboard: a waiting character moves to the keyboard data register.
    pub fn load(&mut self, addr: u16) -> (word: u16)
        requires
            old(self).wf(),
        ensures
            final(self).wf(),
            final(self)@ == old(self)@.after_read(addr),
            word == old(self)@.read(addr),
    {
        if addr == KBSR {
            match self.keys.pop_front() {
                Some(key) => {
                    self.mem.set(KBDR as usize, key as u16);
                    self.mem.set(KBSR as usize, 0x8000);
                },
                None => {
                    self.mem.set(KBSR as usize, 0);
                },
            }
        }
        self.mem[addr as usize]
    }

    /// Sets the condition codes from the register that `r` selects.
    pub fn setcc(&mut self, r: u16)
        requires
            old(self).wf(),
        ensures
            final(self).wf(),
            final(self)@ == old(self)@.setcc(r),
            one_cc(final(self)@.psr),
    {
        let value: u16 = self.reg(r);
        let cc: u16 = if value == 0 {
            CC_Z
        } else if value >> 15 == 1 {
            CC_N
        } else {
            CC_P
        };
        let psr: u16 = self.psr;
        assert((psr & !7u16 | cc) & 7 == cc) by (bit_vector)
            requires
                cc == 1 || cc == 2 || cc == 4,
        ;
        self.psr = psr & !7u16 | cc;
    }

    /// Enters the supervisor through vector `v`: an exception if `I` is
    /// false, an interrupt of the given priority if it is true.
    pub fn interrupt<const I: bool>(&mut self, priority: u16, v: u16)
        requires
            old(self).wf(),
        ensures
            final(self).wf(),
            final(self)@ == old(self)@.enter(I, priority, v),
    {
        let psr: u16 = self.psr;
        let pc: u16 = self.pc;
        if psr >> 15 == 1 {
            self.usp = self.reg[6];
            self.reg.set(6, SUPERVISOR_STACK);
        }
        let sp1: u16 = self.reg[6].wrapping_sub(1);
        let sp2: u16 = sp1.wrapping_sub(1);
        self.reg.set(6, sp2);
        self.store(sp1, psr);
        self.store(sp2, pc);
        self.psr = if I {
            (priority & 7) << 8 | CC_Z
        } else {
            psr & 0x7ff8 | CC_Z
        };
        proof {
            lemma_field_bounds(v);
        }
        self.pc = self.mem[(0x100 | v & 0xff) as usize];
    }

    /// Fetches the instruction at the program counter and moves the program
    /// counter behind it. Returns the operation and the low twelve bits.
    pub fn load_next_instr(&mut self) -> (instr: (Op, u16))
        requires
            old(self).wf(),
        ensures
            final(self).wf(),
            final(self)@ == old(self)@.after_fetch(),
            final(self)@.pc == wadd(old(self)@.pc, 1),
            instr.0 == Op::of_word(old(self)@.read(old(self)@.pc)),
            instr.1 == old(self)@.read(old(self)@.pc) & 0xfff,
    {
        let at: u16 = self.pc;
        let word: u16 = self.load(at);
        self.pc = at.wrapping_add(1);
        (Op::decode(word), word & 0xfff)
    }

    /// The second operand of an ADD or AND instruction.
    pub fn operand2(&self, operand: u16) -> (word: u16)
        requires
            self.wf(),
        ensures
            word == self@.operand2(operand),
    {
        if (operand >> 5) & 1 == 1 {
            sext(operand & 0x1f, 5)
        } else {
            self.reg(operand)
        }
    }

    /// Executes one operation; the program counter already points behind the
    /// instruction, whose low twelve bits are `operand`.
    pub fn execute(&mut self, op: Op, operand: u16)
        requires
            old(self).wf(),
        ensures
            final(self).wf(),
            final(self)@ == old(self)@.execute(op, operand),
    {
        let dr: u16 = (operand >> 9) & 7;
        let sr: u16 = (operand >> 6) & 7;
        match op {
            Op::BR => {
                if dr & self.psr > 0 {
                    let near: u16 = self.calci(operand & 0x1ff, 9);
                    self.jmp(near);
                }
            },
            Op::ADD => {
                let sum: u16 = self.reg(sr).wrapping_add(self.operand2(operand));
                self.set_reg(dr, sum);
                self.setcc(dr);
            },
            Op::AND => {
                let both: u16 = self.reg(sr) & self.operand2(operand);
                self.set_reg(dr, both);
                self.setcc(dr);
            },
            Op::NOT => {
                let flipped: u16 = !self.reg(sr);
                self.set_reg(dr, flipped);
                self.setcc(dr);
            },
            Op::LD => {
                let near: u16 = self.calci(operand & 0x1ff, 9);
                let word: u16 = self.load(near);
                self.set_reg(dr, word);
                self.setcc(dr);
            },
            Op::LDI => {
                let near: u16 = self.calci(operand & 0x1ff, 9);
                let addr: u16 = self.load(near);
                let word: u16 = self.load(addr);
                self.set_reg(dr, word);
                self.setcc(dr);
            },
            Op::LDR => {
                let based: u16 = self.reg(sr).wrapping_add(sext(operand & 0x3f, 6));
                let word: u16 = self.load(based);
                self.set_reg(dr, word);
                self.setcc(dr);
            },
            Op::LEA => {
                let near: u16 = self.calci(operand & 0x1ff, 9);
                self.set_reg(dr, near);
                self.setcc(dr);
            },
            Op::ST => {
                let near: u16 = self.calci(operand & 0x1ff, 9);
                let word: u16 = self.reg(dr);
                self.store(near, word);
            },
            Op::STI => {
                let near: u16 = self.calci(operand & 0x1ff, 9);
                let addr: u16 = self.load(near);
                let word: u16 = self.reg(dr);
                self.store(addr, word);
            },
            Op::STR => {
                let based: u16 = self.reg(sr).wrapping_add(sext(operand & 0x3f, 6));
                let word: u16 = self.reg(dr);
                self.store(based, word);
            },
            Op::JMP => {
                let target: u16 = self.reg(sr);
                self.jmp(target);
            },
            Op::JSR => {
                let link: u16 = self.pc;
                self.reg.set(7, link);
                let target: u16 = if (operand >> 11) & 1 == 0 {
                    self.reg(sr)
                } else {
                    self.calci(operand & 0x7ff, 11)
                };
                self.jmp(target);
            },
            Op::RTI => {
                if self.psr >> 15 == 1 {
                    self.interrupt::<false>(0, VEC_PRIVILEGE);
                } else {
                    let sp: u16 = self.reg[6];
                    let pc: u16 = self.load(sp);
                    let psr: u16 = self.load(sp.wrapping_add(1));
                    self.pc = pc;
                    self.psr = psr;
                    if psr >> 15 == 1 {
                        let usp: u16 = self.usp;
                        self.reg.set(6, usp);
                    } else {
                        self.reg.set(6, sp.wrapping_add(2));
                    }
                }
            },
            Op::TRAP => {
                proof {
                    lemma_field_bounds(operand);
                }
                let link: u16 = self.pc;
                self.reg.set(7, link);
                let target: u16 = self.mem[(operand & 0xff) as usize];
                self.jmp(target);
            },
            Op::RES => {
                self.interrupt::<false>(0, VEC_ILLEGAL);
            },
        }
    }

    /// Takes the oldest interrupt request, if there is one, and services it
    /// if its priority is above the machine's and its device has interrupts
    /// enabled.
    pub fn service(&mut self)
        requires
            old(self).wf(),
        ensures
            final(self).wf(),
            final(self)@ == old(self)@.service(),
    {
        match self.irqs.pop_front() {
            Some(irq) => {
                let status: u16 = if irq.vector & 0xff == VEC_KEYBOARD {
                    KBSR
                } else {
                    0
                };
                if irq.priority & 7 > (self.psr >> 8) & 7 && self.mem[status as usize] & 0x4000
                    > 0 {
                    self.interrupt::<true>(irq.priority & 7, irq.vector & 0xff);
                }
            },
            None => {},
        }
    }

    /// One turn: fetch, execute, look for an interrupt.
    pub fn step(&mut self)
        requires
            old(self).wf(),
        ensures
            final(self).wf(),
            final(self)@ == old(self)@.step(),
    {
        let (op, operand) = self.load_next_instr();
        self.execute(op, operand);
        self.service();
    }

    /// Runs until the machine control register says "halt", for at most
    /// `budget` turns. Returns the number of turns taken.
    pub fn run(&mut self, budget: u64) -> (turns: u64)
        requires
            old(self).wf(),
        ensures
            final(self).wf(),
            final(self)@ == old(self)@.run(budget as nat),
            turns == old(self)@.turns(budget as nat),
            turns <= budget,
            turns < budget ==> !final(self)@.running(),
    {
        let ghost start = self@;
        let mut turns: u64 = 0;
        while turns < budget && self.running()
            invariant
                self.wf(),
                turns <= budget,
                self@.run((budget - turns) as nat) == start.run(budget as nat),
                turns + self@.turns((budget - turns) as nat) == start.turns(budget as nat),
            decreases budget - turns,
        {
            self.step();
            turns += 1;
        }
        turns
    }

    /// Loads an image: two bytes of origin, high byte first, then the words
    /// to store from the origin on, each high byte first.
    pub fn load_image(&mut self, image: &[u8])
        requires
            old(self).wf(),
            image@.len() >= 2,
        ensures
            final(self).wf(),
            final(self)@ == old(self)@.load_image(image@),
    {
        let ghost start = self@;
        let origin: u16 = (image[0] as u16) << 8 | (image[1] as u16);
        let mut at: u16 = origin;
        let mut i: usize = 2;
        while image.len() - i >= 2
            invariant
                self.wf(),
                2 <= i <= image@.len(),
                self@.load_words(at, image@.subrange(i as int, image@.len() as int))
                    == start.load_image(image@),
            decreases image@.len() - i,
        {
            let ghost rest = image@.subrange(i as int, image@.len() as int);
            assert(rest.subrange(2, rest.len() as int) =~= image@.subrange(
                i + 2,
                image@.len() as int,
            ));
            let word: u16 = (image[i] as u16) << 8 | (image[i + 1] as u16);
            self.store(at, word);
            at = at.wrapping_add(1);
            i += 2;
        }
    }

    /// A key was pressed: the character joins the keyboard queue, and the
    /// keyboard asks for an interrupt.
    pub fn key_pressed(&mut self, key: u8)
        ensures
            final(self)@ == (Machine {
                keys: old(self)@.keys.push(key),
                irqs: old(self)@.irqs.push(
                    Interrupt { vector: VEC_KEYBOARD, priority: PRIO_KEYBOARD },
                ),
                ..old(self)@
            }),
    {
        self.keys.push_back(key);
        self.irqs.push_back(Interrupt { vector: VEC_KEYBOARD, priority: PRIO_KEYBOARD });
    }

    /// A device asks for an interrupt.
    pub fn post_interrupt(&mut self, vector: u16, priority: u16)
        ensures
            final(self)@ == (Machine {
                irqs: old(self)@.irqs.push(Interrupt { vector, priority }),
                ..old(self)@
            }),
    {
        self.irqs.push_back(Interrupt { vector, priority });
    }

    /// Hands over what was sent to the display since the last call.
    pub fn take_output(&mut self) -> (sent: Vec<u8>)
        ensures
            sent@ == old(self)@.out,
            final(self)@ == (Machine { out: Seq::empty(), ..old(self)@ }),
    {
        let mut sent: Vec<u8> = Vec::new();
        core::mem::swap(&mut self.out, &mut sent);
        sent
    }
}

} // verus!
