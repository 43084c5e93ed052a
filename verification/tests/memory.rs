use lc3::Vm;

#[test]
fn store_then_load_plain_memory() {
    let mut vm = Vm::new();
    for addr in [0x0000u16, 0x0100, 0x3000, 0xFDFF] {
        vm.store(addr, 0xA5A5 ^ addr);
        assert_eq!(vm.load(addr), 0xA5A5 ^ addr);
        assert_eq!(vm.peek(addr), 0xA5A5 ^ addr);
    }
}

#[test]
fn store_to_display_data_emits_low_byte() {
    let mut vm = Vm::new();
    vm.store(0xFE06, 0x1241);
    vm.store(0xFE06, 0x00FF);
    assert_eq!(vm.peek(0xFE06), 0);
    assert_eq!(vm.take_output(), vec![0x41, 0xFF]);
    assert_eq!(vm.take_output(), Vec::<u8>::new());
}

#[test]
fn store_to_display_status_is_ignored() {
    let mut vm = Vm::new();
    vm.store(0xFE04, 0);
    assert_eq!(vm.load(0xFE04), 0x8000);
    vm.store(0xFE06, 0x0058);
    assert_eq!(vm.take_output(), vec![0x58]);
}

#[test]
fn store_to_keyboard_data_is_ignored() {
    let mut vm = Vm::new();
    vm.key_pressed(0x41);
    vm.store(0xFE02, 0x0099);
    assert_eq!(vm.peek(0xFE02), 0);
    assert_eq!(vm.load(0xFE00), 0x8000);
    vm.store(0xFE02, 0x0099);
    assert_eq!(vm.load(0xFE02), 0x0041);
}

#[test]
fn store_to_other_device_registers_is_ignored() {
    let mut vm = Vm::new();
    for addr in [0xFE01u16, 0xFE03, 0xFE05, 0xFE07, 0xFF00, 0xFFFD, 0xFFFF] {
        vm.store(addr, 0x1234);
        assert_eq!(vm.peek(addr), 0);
    }
    assert_eq!(vm.take_output(), Vec::<u8>::new());
}

#[test]
fn store_to_keyboard_status_writes_through() {
    let mut vm = Vm::new();
    vm.store(0xFE00, 0x4000);
    assert_eq!(vm.peek(0xFE00), 0x4000);
    // A load looks at the keyboard and replaces the cell.
    assert_eq!(vm.load(0xFE00), 0);
    assert_eq!(vm.peek(0xFE00), 0);
}

#[test]
fn machine_control_register_halts() {
    let mut vm = Vm::new();
    assert!(vm.running());
    vm.store(0xFFFE, 0x7FFF);
    assert_eq!(vm.load(0xFFFE), 0x7FFF);
    assert!(!vm.running());
    vm.store(0xFFFE, 0x8000);
    assert!(vm.running());
}

#[test]
fn load_image_places_words_at_origin() {
    let mut vm = Vm::new();
    vm.store(0x2FFF, 0x1111);
    vm.store(0x3002, 0x2222);
    vm.load_image(&[0x30, 0x00, 0x12, 0x34, 0xAB, 0xCD]);
    assert_eq!(vm.peek(0x3000), 0x1234);
    assert_eq!(vm.peek(0x3001), 0xABCD);
    assert_eq!(vm.peek(0x2FFF), 0x1111);
    assert_eq!(vm.peek(0x3002), 0x2222);
    assert_eq!(vm.pc(), 0x3000);
}

#[test]
fn load_image_ignores_a_trailing_byte() {
    let mut vm = Vm::new();
    vm.load_image(&[0x40, 0x00, 0x00, 0x01, 0xFF]);
    assert_eq!(vm.peek(0x4000), 0x0001);
    assert_eq!(vm.peek(0x4001), 0x0000);
}

#[test]
fn load_image_with_origin_only() {
    let mut vm = Vm::new();
    vm.load_image(&[0x30, 0x00]);
    assert_eq!(vm.peek(0x3000), 0);
    vm.load_image(&[0x30, 0x00, 0x77]);
    assert_eq!(vm.peek(0x3000), 0);
}

#[test]
fn later_image_overlays_earlier() {
    let mut vm = Vm::new();
    vm.load_image(&[0x30, 0x00, 0x00, 0x01, 0x00, 0x02]);
    vm.load_image(&[0x30, 0x01, 0x00, 0x09]);
    assert_eq!(vm.peek(0x3000), 1);
    assert_eq!(vm.peek(0x3001), 9);
}

#[test]
fn load_image_wraps_past_the_top() {
    let mut vm = Vm::new();
    vm.load_image(&[0xFF, 0xFE, 0x80, 0x01, 0x00, 0x02, 0x00, 0x03]);
    assert_eq!(vm.peek(0xFFFE), 0x8001);
    assert_eq!(vm.peek(0xFFFF), 0);
    assert_eq!(vm.peek(0x0000), 0x0003);
}
