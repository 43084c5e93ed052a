use lc3::{Op, Vm};

fn image(origin: u16, words: &[u16]) -> Vec<u8> {
    let mut bytes = Vec::new();
    bytes.extend_from_slice(&origin.to_be_bytes());
    for w in words {
        bytes.extend_from_slice(&w.to_be_bytes());
    }
    bytes
}

fn machine(words: &[u16]) -> Vm {
    let mut vm = Vm::new();
    vm.load_image(&image(0x3000, words));
    vm
}

#[test]
fn hello_via_trap_puts() {
    let mut vm = machine(&[0xE002, 0xF022, 0xF025, 0x0048, 0x0069, 0x0000]);
    // PUTS: walk the string at R0 and store each character to the display.
    vm.load_image(&image(
        0x0400,
        &[0x1220, 0x6440, 0x0403, 0xB403, 0x1261, 0x0FFB, 0xC1C0, 0xFE06],
    ));
    // HALT: clear the machine control register.
    vm.load_image(&image(0x0410, &[0x5020, 0xB000, 0xFFFE]));
    vm.store(0x22, 0x0400);
    vm.store(0x25, 0x0410);
    let turns = vm.run(1000);
    assert!(turns < 1000);
    assert!(!vm.running());
    assert_eq!(vm.peek(0xFFFE) >> 15, 0);
    assert_eq!(vm.take_output(), b"Hi".to_vec());
    assert_eq!(turns, 19);
}

#[test]
fn add_immediate_sign_extension() {
    let mut vm = machine(&[0x107F]);
    vm.set_reg(1, 0x0001);
    vm.step();
    assert_eq!(vm.reg(0), 0x0000);
    assert_eq!(vm.psr() & 7, 0b010);
}

#[test]
fn brnzp_unconditional() {
    let mut vm = machine(&[0x0E01, 0x0000, 0x1021]);
    assert_eq!(vm.pc(), 0x3000);
    vm.step();
    assert_eq!(vm.pc(), 0x3002);
    let (op, operand) = vm.load_next_instr();
    assert_eq!(op, Op::ADD);
    assert_eq!(operand, 0x021);
    assert_eq!(vm.pc(), 0x3003);
}

#[test]
fn ldi_indirection() {
    let mut vm = machine(&[0xA0FF]);
    vm.store(0x3100, 0x4000);
    vm.store(0x4000, 0xBEEF);
    vm.step();
    assert_eq!(vm.reg(0), 0xBEEF);
    assert_eq!(vm.psr() & 7, 0b100);
}

#[test]
fn illegal_opcode() {
    let mut vm = machine(&[0xD000]);
    vm.store(0x0101, 0x0500);
    let psr = vm.psr();
    let r6 = vm.reg(6);
    assert_eq!(psr >> 15, 1);
    vm.step();
    assert_eq!(vm.pc(), 0x0500);
    assert_eq!(vm.psr() >> 15, 0);
    assert_eq!(vm.psr() & 7, 0b010);
    assert_eq!(vm.reg(6), 0x2FFE);
    assert_eq!(vm.peek(0x2FFF), psr);
    assert_eq!(vm.peek(0x2FFE), 0x3001);
    assert_eq!(vm.usp(), r6);
}

#[test]
fn keyboard_path() {
    let mut vm = machine(&[0xA00F]);
    vm.store(0x3010, 0xFE00);
    vm.key_pressed(0x41);
    vm.step();
    assert_eq!(vm.reg(0), 0x8000);
    assert_eq!(vm.load(0xFE02), 0x0041);
    // The interrupt that came with the key was dropped: interrupts are off.
    assert_eq!(vm.pc(), 0x3001);
    assert_eq!(vm.psr() >> 15, 1);
}

#[test]
fn keyboard_without_key_reads_zero() {
    let mut vm = machine(&[0xA00F]);
    vm.store(0x3010, 0xFE00);
    vm.step();
    assert_eq!(vm.reg(0), 0x0000);
    assert_eq!(vm.psr() & 7, 0b010);
    assert_eq!(vm.peek(0xFE02), 0);
}

#[test]
fn keys_arrive_in_order() {
    let mut vm = Vm::new();
    vm.key_pressed(b'a');
    vm.key_pressed(b'b');
    assert_eq!(vm.load(0xFE00), 0x8000);
    assert_eq!(vm.load(0xFE02), b'a' as u16);
    assert_eq!(vm.load(0xFE00), 0x8000);
    assert_eq!(vm.load(0xFE02), b'b' as u16);
    assert_eq!(vm.load(0xFE00), 0);
    assert_eq!(vm.load(0xFE02), b'b' as u16);
}
