use lc3::{Op, Vm};

#[test]
fn exception_from_user_mode_switches_stacks() {
    let mut vm = Vm::new();
    vm.store(0x0100, 0x0600);
    vm.set_reg(6, 0xBEEF);
    vm.set_psr(0x8301);
    vm.jmp(0x3456);
    vm.interrupt::<false>(5, 0x00);
    assert_eq!(vm.usp(), 0xBEEF);
    assert_eq!(vm.reg(6), 0x2FFE);
    assert_eq!(vm.peek(0x2FFF), 0x8301);
    assert_eq!(vm.peek(0x2FFE), 0x3456);
    assert_eq!(vm.psr(), 0x0302);
    assert_eq!(vm.pc(), 0x0600);
}

#[test]
fn exception_in_supervisor_mode_keeps_the_stack() {
    let mut vm = Vm::new();
    vm.store(0x0101, 0x0700);
    vm.set_reg(6, 0x2000);
    vm.set_psr(0x0204);
    vm.jmp(0x0555);
    vm.interrupt::<false>(0, 0x01);
    assert_eq!(vm.usp(), 0xFE00);
    assert_eq!(vm.reg(6), 0x1FFE);
    assert_eq!(vm.peek(0x1FFF), 0x0204);
    assert_eq!(vm.peek(0x1FFE), 0x0555);
    assert_eq!(vm.psr(), 0x0202);
    assert_eq!(vm.pc(), 0x0700);
}

#[test]
fn interrupt_installs_its_priority() {
    let mut vm = Vm::new();
    vm.store(0x0180, 0x0800);
    vm.interrupt::<true>(0xFFFC, 0x0180);
    assert_eq!(vm.psr(), 0x0402);
    assert_eq!(vm.pc(), 0x0800);
    assert_eq!(vm.reg(6), 0x2FFE);
}

#[test]
fn stack_pointer_wraps_below_zero() {
    let mut vm = Vm::new();
    vm.set_psr(0x0002);
    vm.set_reg(6, 0x0001);
    vm.jmp(0x0042);
    vm.interrupt::<false>(0, 0x01);
    assert_eq!(vm.reg(6), 0xFFFF);
    assert_eq!(vm.peek(0x0000), 0x0002);
    assert_eq!(vm.peek(0xFFFF), 0);
}

#[test]
fn rti_in_user_mode_is_a_privilege_exception() {
    let mut vm = Vm::new();
    vm.store(0x3000, 0x8000);
    vm.store(0x0100, 0x0900);
    vm.step();
    assert_eq!(vm.pc(), 0x0900);
    assert_eq!(vm.psr(), 0x0002);
    assert_eq!(vm.reg(6), 0x2FFE);
    assert_eq!(vm.peek(0x2FFF), 0x8002);
    assert_eq!(vm.peek(0x2FFE), 0x3001);
}

#[test]
fn rti_returns_to_user_mode() {
    let mut vm = Vm::new();
    vm.store(0x0101, 0x0500);
    vm.store(0x3000, 0xD000);
    vm.store(0x0500, 0x8000);
    vm.set_reg(6, 0x4444);
    vm.set_psr(0x8001);
    vm.step();
    assert_eq!(vm.pc(), 0x0500);
    assert_eq!(vm.reg(6), 0x2FFE);
    vm.step();
    assert_eq!(vm.pc(), 0x3001);
    assert_eq!(vm.psr(), 0x8001);
    assert_eq!(vm.reg(6), 0x4444);
}

#[test]
fn rti_returns_to_supervisor_mode() {
    let mut vm = Vm::new();
    vm.set_psr(0x0001);
    vm.set_reg(6, 0x2800);
    vm.store(0x0101, 0x0500);
    vm.store(0x0500, 0x8000);
    vm.jmp(0x0200);
    vm.execute(Op::RES, 0);
    assert_eq!(vm.reg(6), 0x27FE);
    assert_eq!(vm.pc(), 0x0500);
    vm.step();
    assert_eq!(vm.pc(), 0x0200);
    assert_eq!(vm.psr(), 0x0001);
    assert_eq!(vm.reg(6), 0x2800);
    assert_eq!(vm.usp(), 0xFE00);
}

#[test]
fn keyboard_interrupt_is_taken_when_enabled() {
    let mut vm = Vm::new();
    vm.store(0x0180, 0x0A00);
    vm.store(0xFE00, 0x4000);
    vm.store(0x3000, 0x1021);
    vm.key_pressed(b'x');
    vm.step();
    assert_eq!(vm.reg(0), 1);
    assert_eq!(vm.pc(), 0x0A00);
    assert_eq!(vm.psr(), 0x0402);
    assert_eq!(vm.reg(6), 0x2FFE);
    assert_eq!(vm.peek(0x2FFF), 0x8001);
    assert_eq!(vm.peek(0x2FFE), 0x3001);
    assert_eq!(vm.usp(), 0xFE00);
    assert_eq!(vm.load(0xFE00), 0x8000);
    assert_eq!(vm.load(0xFE02), b'x' as u16);
}

#[test]
fn keyboard_interrupt_is_dropped_when_disabled() {
    let mut vm = Vm::new();
    vm.store(0x0180, 0x0A00);
    vm.store(0x3000, 0x1021);
    vm.store(0x3001, 0x1021);
    vm.key_pressed(b'x');
    vm.step();
    assert_eq!(vm.pc(), 0x3001);
    // The request is gone: enabling now does not bring it back.
    vm.store(0xFE00, 0x4000);
    vm.step();
    assert_eq!(vm.pc(), 0x3002);
    assert_eq!(vm.psr() >> 15, 1);
}

#[test]
fn interrupt_needs_strictly_higher_priority() {
    let mut vm = Vm::new();
    vm.store(0x0180, 0x0A00);
    vm.store(0xFE00, 0x4000);
    vm.set_psr(0x8402);
    vm.post_interrupt(0x80, 4);
    vm.service();
    assert_eq!(vm.pc(), 0x3000);
    assert_eq!(vm.psr(), 0x8402);
    vm.post_interrupt(0x80, 5);
    vm.service();
    assert_eq!(vm.pc(), 0x0A00);
    assert_eq!(vm.psr(), 0x0502);
}

#[test]
fn one_request_is_looked_at_per_turn() {
    let mut vm = Vm::new();
    vm.store(0x0180, 0x0A00);
    vm.store(0x3000, 0x1021);
    vm.store(0x3001, 0x1021);
    vm.post_interrupt(0x80, 0);
    vm.post_interrupt(0x80, 4);
    vm.store(0xFE00, 0x4000);
    vm.step();
    assert_eq!(vm.pc(), 0x3001);
    vm.step();
    assert_eq!(vm.pc(), 0x0A00);
}

#[test]
fn other_vectors_look_at_word_zero() {
    let mut vm = Vm::new();
    vm.store(0x0142, 0x0B00);
    vm.store(0xFE00, 0x4000);
    vm.post_interrupt(0x42, 7);
    vm.service();
    assert_eq!(vm.pc(), 0x3000);
    vm.store(0x0000, 0x4000);
    vm.post_interrupt(0x1142, 0xF);
    vm.service();
    assert_eq!(vm.pc(), 0x0B00);
    assert_eq!(vm.psr(), 0x0702);
}

#[test]
fn service_with_empty_queue_does_nothing() {
    let mut vm = Vm::new();
    vm.store(0xFE00, 0x4000);
    vm.service();
    assert_eq!(vm.pc(), 0x3000);
    assert_eq!(vm.psr(), 0x8002);
    assert_eq!(vm.reg(6), 0xFE00);
}
