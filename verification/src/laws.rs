//! Laws of the machine: what holds of every state and every instruction.

use vstd::prelude::*;
use crate::machine::{
    be_word, cc_of, one_cc, wadd, Machine, CC_N, CC_P, CC_Z, DDR, DSR, KBDR, KBSR, MCR,
};
use crate::op::Op;
use crate::word::{lemma_field_bounds, sext_spec};

verus! {

proof fn lemma_cc_bits(psr: u16, cc: u16)
    by (bit_vector)
    requires
        cc == 1 || cc == 2 || cc == 4,
    ensures
        (psr & !7u16 | cc) & 7 == cc,
        (psr & !7u16 | cc) & !7u16 == psr & !7u16,
{
}

proof fn lemma_entry_bits(psr: u16, priority: u16)
    by (bit_vector)
    ensures
        ((priority & 7) << 8 | 2) & 7 == 2,
        ((priority & 7) << 8 | 2) >> 15 == 0,
        (((priority & 7) << 8 | 2) >> 8) & 7 == priority & 7,
        (psr & 0x7ff8 | 2) & 7 == 2,
        (psr & 0x7ff8 | 2) >> 15 == 0,
        ((psr & 0x7ff8 | 2) >> 8) & 7 == (psr >> 8) & 7,
{
}

/// Setting the condition codes leaves exactly one of N, Z and P set, the one
/// that describes the register, and keeps every other bit of the status word.
pub proof fn lemma_setcc_exactly_one(m: Machine, field: u16)
    ensures
        one_cc(m.setcc(field).psr),
        m.setcc(field).psr & 7 == cc_of(m.r(field)),
        m.setcc(field).psr & !7u16 == m.psr & !7u16,
{
    lemma_cc_bits(m.psr, cc_of(m.r(field)));
}

/// Entry into the supervisor, by exception or by interrupt, leaves the
/// machine in supervisor mode with condition code Z. An exception keeps the
/// priority level, an interrupt installs its own.
pub proof fn lemma_enter_status(m: Machine, external: bool, priority: u16, vector: u16)
    ensures
        !m.enter(external, priority, vector).user(),
        m.enter(external, priority, vector).psr & 7 == CC_Z,
        (m.enter(external, priority, vector).psr >> 8) & 7 == if external {
            priority & 7
        } else {
            (m.psr >> 8) & 7
        },
{
    lemma_entry_bits(m.psr, priority);
}

/// Every transition keeps the machine well formed.
pub proof fn lemma_step_wf(m: Machine)
    requires
        m.wf(),
    ensures
        m.step().wf(),
{
    let word = m.read(m.pc);
    lemma_execute_wf(m.after_fetch(), Op::of_word(word), word & 0xfff);
    lemma_service_wf(m.after_fetch().execute(Op::of_word(word), word & 0xfff));
}

/// Entry into the supervisor keeps the machine well formed.
pub proof fn lemma_enter_wf(m: Machine, external: bool, priority: u16, vector: u16)
    requires
        m.wf(),
    ensures
        m.enter(external, priority, vector).wf(),
{
}

/// Executing an operation keeps the machine well formed.
pub proof fn lemma_execute_wf(m: Machine, op: Op, operand: u16)
    requires
        m.wf(),
    ensures
        m.execute(op, operand).wf(),
{
    lemma_field_bounds(operand);
    lemma_enter_wf(m, false, 0, 0);
    lemma_enter_wf(m, false, 0, 1);
}

/// The look at the interrupt queue keeps the machine well formed.
pub proof fn lemma_service_wf(m: Machine)
    requires
        m.wf(),
    ensures
        m.service().wf(),
{
    if m.irqs.len() > 0 {
        let irq = m.irqs[0];
        let rest = Machine { irqs: m.irqs.subrange(1, m.irqs.len() as int), ..m };
        lemma_enter_wf(rest, true, irq.priority & 7, irq.vector & 0xff);
    }
}

/// After an instruction that sets the condition codes, and after the look at
/// the interrupt queue that follows it, exactly one of N, Z and P is set.
pub proof fn lemma_cc_after_instruction(m: Machine, op: Op, operand: u16)
    requires
        m.wf(),
        op.sets_cc(),
    ensures
        one_cc(m.execute(op, operand).psr),
        one_cc(m.execute(op, operand).service().psr),
{
    lemma_cc_bits(m.psr, CC_N);
    lemma_cc_bits(m.psr, CC_Z);
    lemma_cc_bits(m.psr, CC_P);
    let after = m.execute(op, operand);
    assert(one_cc(after.psr));
    lemma_service_keeps_cc(after);
}

/// The look at the interrupt queue keeps the condition codes valid: it
/// either leaves the status word alone or enters the supervisor with Z.
pub proof fn lemma_service_keeps_cc(m: Machine)
    requires
        one_cc(m.psr),
    ensures
        one_cc(m.service().psr),
{
    if m.irqs.len() > 0 {
        let irq = m.irqs[0];
        let rest = Machine { irqs: m.irqs.subrange(1, m.irqs.len() as int), ..m };
        lemma_enter_status(rest, true, irq.priority & 7, irq.vector & 0xff);
    }
}

/// The fetch reads the instruction at the program counter and leaves the
/// program counter one further, modulo 2^16.
pub proof fn lemma_fetch_advances(m: Machine)
    ensures
        m.after_fetch().pc as int == (m.pc + 1) % 0x10000,
        m.after_fetch().pc == wadd(m.pc, 1),
{
}

/// A store to a device register other than the keyboard status, the display
/// data and the machine control register changes nothing at all; so stores
/// to the display status and to the keyboard data change nothing.
pub proof fn lemma_device_registers_ignore_stores(m: Machine, addr: u16, word: u16)
    requires
        addr > KBSR,
        addr != DDR,
        addr != MCR,
    ensures
        m.write(addr, word) == m,
        m.write(DSR, word) == m,
        m.write(KBDR, word) == m,
{
}

/// The display status reads as ready whatever is stored, and wherever.
pub proof fn lemma_display_always_ready(m: Machine, addr: u16, word: u16)
    requires
        m.wf(),
    ensures
        m.write(addr, word).read(DSR) == 0x8000,
        m.read(DSR) == 0x8000,
{
}

/// A store to the display data register sends exactly one byte, the word's
/// low byte, and changes nothing else, the register's own cell included.
pub proof fn lemma_display_store(m: Machine, word: u16)
    ensures
        m.write(DDR, word).out == m.out.push((word & 0xff) as u8),
        m.write(DDR, word).out.len() == m.out.len() + 1,
        m.write(DDR, word) == (Machine { out: m.write(DDR, word).out, ..m }),
{
}

/// A store instruction whose address is the display data register sends
/// exactly the low byte of the stored register, before the next fetch.
pub proof fn lemma_display_store_instruction(m: Machine, operand: u16)
    requires
        m.wf(),
    ensures
        m.pc_plus(operand & 0x1ff, 9) == DDR ==> m.execute(Op::ST, operand).out == m.out.push(
            (m.r((operand >> 9) & 7) & 0xff) as u8,
        ),
        wadd(m.r((operand >> 6) & 7), sext_spec(operand & 0x3f, 6)) == DDR ==> m.execute(
            Op::STR,
            operand,
        ).out == m.out.push((m.r((operand >> 9) & 7) & 0xff) as u8),
        m.read(m.pc_plus(operand & 0x1ff, 9)) == DDR ==> m.execute(Op::STI, operand).out
            == m.out.push((m.r((operand >> 9) & 7) & 0xff) as u8),
{
    lemma_field_bounds(operand);
}

/// Coming from user mode, the supervisor stack starts at its base: the old
/// status word lies just below 0x3000, the old program counter below that,
/// R6 points at it, and the user's R6 is saved.
pub proof fn lemma_enter_from_user(m: Machine, external: bool, priority: u16, vector: u16)
    requires
        m.wf(),
        m.user(),
    ensures
        m.enter(external, priority, vector).reg[6] == 0x2ffe,
        m.enter(external, priority, vector).mem[0x2fff] == m.psr,
        m.enter(external, priority, vector).mem[0x2ffe] == m.pc,
        m.enter(external, priority, vector).usp == m.reg[6],
{
}

/// A return from the supervisor that matches an entry undoes it. Let the
/// machine enter the supervisor, from user mode or with a stack in plain
/// memory. Let `handler` be any later supervisor state in which R6, the saved
/// user stack pointer and the two pushed words are as the entry left them.
/// Then a return from `handler` restores R6, the program counter and the
/// status word of the interrupted program.
pub proof fn lemma_return_restores(
    m: Machine,
    external: bool,
    priority: u16,
    vector: u16,
    handler: Machine,
)
    requires
        m.wf(),
        m.user() || 2 <= m.reg[6] <= KBSR,
        handler.wf(),
        !handler.user(),
        handler.reg[6] == m.enter(external, priority, vector).reg[6],
        handler.usp == m.enter(external, priority, vector).usp,
        handler.mem[handler.reg[6] as int] == m.pc,
        handler.mem[handler.reg[6] + 1] == m.psr,
    ensures
        handler.execute(Op::RTI, 0) == handler.rti(),
        handler.rti().reg[6] == m.reg[6],
        handler.rti().pc == m.pc,
        handler.rti().psr == m.psr,
{
}

/// A return right after an entry restores R6, the program counter and the
/// status word.
pub proof fn lemma_enter_then_return(m: Machine, external: bool, priority: u16, vector: u16)
    requires
        m.wf(),
        m.user() || 2 <= m.reg[6] <= KBSR,
    ensures
        m.enter(external, priority, vector).rti().reg[6] == m.reg[6],
        m.enter(external, priority, vector).rti().pc == m.pc,
        m.enter(external, priority, vector).rti().psr == m.psr,
{
    let e = m.enter(external, priority, vector);
    lemma_enter_status(m, external, priority, vector);
    lemma_enter_wf(m, external, priority, vector);
    lemma_return_restores(m, external, priority, vector, e);
}

/// ADD with an immediate commutes: with the first machine's source register
/// holding the value of the second instruction's immediate and the other way
/// round, both instructions write the same sum.
pub proof fn lemma_add_immediate_commutes(m1: Machine, i1: u16, m2: Machine, i2: u16)
    requires
        m1.wf(),
        m2.wf(),
        (i1 >> 5) & 1 == 1,
        (i2 >> 5) & 1 == 1,
        m1.r((i1 >> 6) & 7) == sext_spec(i2 & 0x1f, 5),
        m2.r((i2 >> 6) & 7) == sext_spec(i1 & 0x1f, 5),
    ensures
        m1.execute(Op::ADD, i1).r((i1 >> 9) & 7) == m2.execute(Op::ADD, i2).r((i2 >> 9) & 7),
        m1.execute(Op::ADD, i1).r((i1 >> 9) & 7) == wadd(
            sext_spec(i1 & 0x1f, 5),
            sext_spec(i2 & 0x1f, 5),
        ),
{
    lemma_field_bounds(i1);
    lemma_field_bounds(i2);
}

/// A subroutine call writes the link first: R7 holds the address behind the
/// instruction, and a call through a base register jumps to what that
/// register holds once the link is written. So a call through R7 itself
/// goes on behind the instruction.
pub proof fn lemma_jsr_links_first(m: Machine, operand: u16)
    requires
        m.wf(),
    ensures
        m.execute(Op::JSR, operand).reg[7] == m.pc,
        (operand >> 11) & 1 == 1 ==> m.execute(Op::JSR, operand).pc == m.pc_plus(
            operand & 0x7ff,
            11,
        ),
        (operand >> 11) & 1 == 0 && (operand >> 6) & 7 != 7 ==> m.execute(Op::JSR, operand).pc
            == m.r((operand >> 6) & 7),
        (operand >> 11) & 1 == 0 && (operand >> 6) & 7 == 7 ==> m.execute(Op::JSR, operand).pc
            == m.pc,
{
    lemma_field_bounds(operand);
}

/// A trap writes the link to R7 and goes on at the address that the trap
/// vector table holds for the instruction's low eight bits; nothing else
/// changes.
pub proof fn lemma_trap_through_table(m: Machine, operand: u16)
    requires
        m.wf(),
    ensures
        m.execute(Op::TRAP, operand).reg[7] == m.pc,
        m.execute(Op::TRAP, operand).pc == m.mem[(operand & 0xff) as int],
        m.execute(Op::TRAP, operand) == (Machine {
            reg: m.reg.update(7, m.pc),
            pc: m.mem[(operand & 0xff) as int],
            ..m
        }),
{
}

/// A store to the machine control register decides whether the machine goes
/// on: it runs exactly if bit 15 of the stored word is set. Once halted, a
/// run takes no turn and sends nothing to the display.
pub proof fn lemma_halt_store(m: Machine, word: u16, budget: nat)
    requires
        m.wf(),
    ensures
        m.write(MCR, word).running() == (word >> 15 == 1),
        word >> 15 != 1 ==> m.write(MCR, word).run(budget) == m.write(MCR, word),
        word >> 15 != 1 ==> m.write(MCR, word).run(budget).out == m.out,
{
}

/// A word stored in plain memory, or in the machine control register, is the
/// word that the next load of that address returns, and that load changes
/// nothing.
pub proof fn lemma_store_then_load(m: Machine, addr: u16, word: u16)
    requires
        m.wf(),
        addr < KBSR || addr == MCR,
    ensures
        m.write(addr, word).read(addr) == word,
        m.write(addr, word).after_read(addr) == m.write(addr, word),
{
}

/// A store changes no other cell of memory.
pub proof fn lemma_store_elsewhere(m: Machine, addr: u16, word: u16, other: u16)
    requires
        m.wf(),
        other != addr,
    ensures
        m.write(addr, word).mem[other as int] == m.mem[other as int],
{
}

/// A halted machine stays as it is.
pub proof fn lemma_run_halted(m: Machine, budget: nat)
    requires
        !m.running(),
    ensures
        m.run(budget) == m,
        m.turns(budget) == 0,
{
}

/// Running in two slices is running once with the sum of their budgets.
pub proof fn lemma_run_split(m: Machine, first: nat, second: nat)
    ensures
        m.run(first).run(second) == m.run(first + second),
        m.turns(first) + m.run(first).turns(second) == m.turns(first + second),
    decreases first,
{
    if first == 0 {
    } else if !m.running() {
        lemma_run_halted(m, second);
        lemma_run_halted(m, first + second);
    } else {
        lemma_run_split(m.step(), (first - 1) as nat, second);
        assert((first + second - 1) as nat == (first - 1) as nat + second);
    }
}

/// Running keeps the machine well formed, takes no more turns than the
/// budget, and stops short of it only on a halted machine.
pub proof fn lemma_run_stops(m: Machine, budget: nat)
    requires
        m.wf(),
    ensures
        m.run(budget).wf(),
        m.turns(budget) <= budget,
        m.turns(budget) < budget ==> !m.run(budget).running(),
    decreases budget,
{
    if budget > 0 && m.running() {
        lemma_step_wf(m);
        lemma_run_stops(m.step(), (budget - 1) as nat);
    }
}

/// The number of whole words in an image body.
pub open spec fn body_words(body: Seq<u8>) -> int {
    body.len() as int / 2
}

/// Word `k` of an image body: its bytes `2k` and `2k + 1`, high byte first.
pub open spec fn body_word(body: Seq<u8>, k: int) -> u16 {
    be_word(body[2 * k], body[2 * k + 1])
}

/// Words stored from `origin` on land in consecutive cells, as long as the
/// last of them lies at or below the keyboard status register: cell
/// `origin + k` then holds word `k`, every other cell and all the rest of the
/// machine are as before.
pub proof fn lemma_load_words_plain(m: Machine, origin: u16, body: Seq<u8>)
    requires
        m.wf(),
        origin + body_words(body) <= KBSR + 1,
    ensures
        m.load_words(origin, body) == (Machine { mem: m.load_words(origin, body).mem, ..m }),
        m.load_words(origin, body).mem.len() == m.mem.len(),
        forall|a: int|
            0 <= a < m.mem.len() ==> #[trigger] m.load_words(origin, body).mem[a] == if origin <= a
                < origin + body_words(body) {
                body_word(body, a - origin)
            } else {
                m.mem[a]
            },
    decreases body.len(),
{
    if body.len() >= 2 {
        let first = m.write(origin, be_word(body[0], body[1]));
        let rest = body.subrange(2, body.len() as int);
        assert(body_words(rest) == body_words(body) - 1);
        assert(wadd(origin, 1) == origin + 1);
        lemma_load_words_plain(first, wadd(origin, 1), rest);
        let done = first.load_words(wadd(origin, 1), rest);
        assert(done == m.load_words(origin, body));
        assert forall|a: int| 0 <= a < m.mem.len() implies #[trigger] done.mem[a] == if origin <= a
            < origin + body_words(body) {
            body_word(body, a - origin)
        } else {
            m.mem[a]
        } by {
            if origin + 1 <= a < origin + body_words(body) {
                let k = a - origin - 1;
                assert(rest[2 * k] == body[2 * (k + 1)]);
                assert(rest[2 * k + 1] == body[2 * (k + 1) + 1]);
            }
        }
    }
}

/// An image whose words all lie at or below the keyboard status register is
/// copied into memory as it stands: the cell at the origin plus `k` holds the
/// image's word `k`, and nothing else changes.
pub proof fn lemma_load_image_plain(m: Machine, image: Seq<u8>)
    requires
        m.wf(),
        image.len() >= 2,
        be_word(image[0], image[1]) + body_words(image.subrange(2, image.len() as int)) <= KBSR
            + 1,
    ensures
        m.load_image(image) == (Machine { mem: m.load_image(image).mem, ..m }),
        forall|k: int|
            0 <= k < body_words(image.subrange(2, image.len() as int))
                ==> #[trigger] m.load_image(image).mem[be_word(image[0], image[1]) + k] == be_word(
                image[2 + 2 * k],
                image[3 + 2 * k],
            ),
        forall|a: int|
            0 <= a < m.mem.len() && !(be_word(image[0], image[1]) <= a < be_word(
                image[0],
                image[1],
            ) + body_words(image.subrange(2, image.len() as int)))
                ==> #[trigger] m.load_image(image).mem[a] == m.mem[a],
{
    let origin = be_word(image[0], image[1]);
    let body = image.subrange(2, image.len() as int);
    lemma_load_words_plain(m, origin, body);
    assert forall|k: int| 0 <= k < body_words(body) implies #[trigger] m.load_image(image).mem[origin
        + k] == be_word(image[2 + 2 * k], image[3 + 2 * k]) by {
        assert(body[2 * k] == image[2 + 2 * k]);
        assert(body[2 * k + 1] == image[3 + 2 * k]);
        assert(body_word(body, (origin + k) - origin) == be_word(body[2 * k], body[2 * k + 1]));
    }
}

} // verus!
