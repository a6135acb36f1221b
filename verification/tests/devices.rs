use e6502::hardware::bus::Bus;
use e6502::hardware::clock::Clock;
use e6502::hardware::cpu::system::System;
use e6502::hardware::cpu::CPU;
use e6502::hardware::display::Display;
use e6502::hardware::keyboard::Keyboard;
use e6502::hardware::memory::Memory;
use e6502::hardware::rom::Rom;
use e6502::hardware::Device;
use e6502::hardware::Peripheral;
use e6502::types::Addr;
use e6502::types::Byte;

#[test]
fn memory_keeps_what_is_written() {
    let mut ram = Memory::new(Addr(0x1000), Addr(0x1fff));
    assert_eq!(ram.range(), (Addr(0x1000), Addr(0x1fff)));
    assert_eq!(ram.tx(Addr(0x1000)), Byte(0));
    assert!(ram.rx(Addr(0x1000), Byte(0xaa)));
    assert!(ram.rx(Addr(0x1fff), Byte(0xbb)));
    assert_eq!(ram.tx(Addr(0x1000)), Byte(0xaa));
    assert_eq!(ram.tx(Addr(0x1fff)), Byte(0xbb));
    assert_eq!(ram.tx(Addr(0x1001)), Byte(0));
    let ram = Memory::default();
    assert_eq!(ram.range(), (Addr(0x0000), Addr(0x3fff)));
    let mut one = Memory::new(Addr(0xffff), Addr(0xffff));
    assert!(one.rx(Addr(0xffff), Byte(1)));
    assert_eq!(one.tx(Addr(0xffff)), Byte(1));
}

#[test]
fn for_every_address_and_byte_ram_reads_what_was_written() {
    let mut bus = Bus::new();
    bus.register(Peripheral::Ram(Memory::new(Addr(0x0000), Addr(0xffff)))).unwrap();
    for a in (0..=0xffffu16).step_by(251) {
        let b = (a % 256) as u8 ^ 0x5a;
        assert!(bus.write(Addr(a), Byte(b)));
        assert_eq!(bus.read(Addr(a)), Byte(b));
    }
    for a in (0..=0xffffu16).step_by(251) {
        let b = (a % 256) as u8 ^ 0x5a;
        assert_eq!(bus.read(Addr(a)), Byte(b));
    }
}

#[test]
fn rom_range_and_refusal() {
    let mut rom = Rom::new(None);
    assert_eq!(rom.range(), (Addr(0x7f00), Addr(0xffff)));
    assert_eq!(rom.tx(Addr(0x7f00)), Byte(0));
    assert!(!rom.rx(Addr(0x7f00), Byte(1)));
    assert_eq!(rom.tx(Addr(0x7f00)), Byte(0));
}

#[test]
fn keyboard_device() {
    let mut keys = Keyboard::new();
    assert_eq!(keys.range(), (Addr(0x5000), Addr(0x5001)));
    assert_eq!(keys.tx(Addr(0x5001)), Byte(0x00));
    keys.press(b'a');
    assert_eq!(keys.tx(Addr(0x5001)), Byte(0x08));
    assert!(!keys.rx(Addr(0x5000), Byte(1)));
    assert_eq!(keys.tx(Addr(0x5000)), Byte(b'a'));
    assert_eq!(keys.tx(Addr(0x5000)), Byte(0x00));
}

#[test]
fn display_device() {
    let mut screen = Display::new();
    assert_eq!(screen.range(), (Addr(0x5002), Addr(0x5003)));
    assert_eq!(screen.tx(Addr(0x5003)), Byte(0x08));
    assert_eq!(screen.tx(Addr(0x5002)), Byte(0x00));
    assert!(screen.rx(Addr(0x5002), Byte(b'H')));
    assert!(screen.rx(Addr(0x5002), Byte(b'i')));
    // the ready address takes no write
    assert!(!screen.rx(Addr(0x5003), Byte(b'!')));
    assert_eq!(screen.take_output(), b"Hi".to_vec());
    assert_eq!(screen.take_output(), Vec::<u8>::new());
}

#[test]
fn peripherals_answer_as_their_devices() {
    let mut device = Peripheral::Display(Display::new());
    assert_eq!(device.range(), (Addr(0x5002), Addr(0x5003)));
    assert!(device.rx(Addr(0x5002), Byte(b'x')));
    assert!(!device.press(1));
    assert_eq!(device.take_output(), vec![b'x']);
    let mut device = Peripheral::Keyboard(Keyboard::new());
    assert!(device.press(9));
    assert_eq!(device.take_output(), Vec::<u8>::new());
    assert_eq!(device.tx(Addr(0x5000)), Byte(9));
    let mut device = Peripheral::Ram(Memory::default());
    assert!(!device.press(9));
    assert!(device.rx(Addr(3), Byte(4)));
    assert_eq!(device.tx(Addr(3)), Byte(4));
}

#[test]
fn the_machine_writes_to_the_display_and_reads_the_keyboard() {
    let mut bus = Bus::new();
    bus.register(Peripheral::Ram(Memory::default())).unwrap();
    bus.register(Peripheral::Keyboard(Keyboard::new())).unwrap();
    bus.register(Peripheral::Display(Display::new())).unwrap();
    // wait: LDA $5001; BEQ wait; LDA $5000; STA $5002; JMP wait
    let program = [
        0xad, 0x01, 0x50, 0xf0, 0xfb, 0xad, 0x00, 0x50, 0x8d, 0x02, 0x50, 0x4c, 0x00, 0x04,
    ];
    for (i, byte) in program.iter().enumerate() {
        assert!(bus.write(Addr(0x0400 + i as u16), Byte(*byte)));
    }
    let mut vectors = vec![0u8; 0x8100];
    vectors[0x80fc] = 0x00;
    vectors[0x80fd] = 0x04;
    bus.register(Peripheral::Rom(Rom::new(Some(vectors)))).unwrap();
    let mut cpu = CPU::new(bus, Clock::new());
    cpu.reset();
    assert!(cpu.key_press(b'o'));
    assert!(cpu.key_press(b'k'));
    for _ in 0..10 {
        assert!(cpu.exec());
    }
    assert_eq!(cpu.take_output(), b"ok".to_vec());
    // nothing waits: the CPU loops on the spot without trapping
    for _ in 0..10 {
        assert!(cpu.exec());
    }
    assert_eq!(cpu.take_output(), Vec::<u8>::new());
    assert_eq!(cpu.take_dropped(), None);
}

#[test]
fn dropped_writes_are_told_to_the_host() {
    let mut bus = Bus::new();
    bus.register(Peripheral::Ram(Memory::default())).unwrap();
    bus.register(Peripheral::Rom(Rom::new(None))).unwrap();
    let mut cpu = CPU::new(bus, Clock::new());
    assert_eq!(cpu.take_dropped(), None);
    cpu.write(Addr(0x0010), Byte(1));
    assert_eq!(cpu.take_dropped(), None);
    cpu.write(Addr(0x4000), Byte(1));
    assert_eq!(cpu.take_dropped(), Some(Addr(0x4000)));
    assert_eq!(cpu.take_dropped(), None);
    cpu.write(Addr(0x8000), Byte(1));
    assert_eq!(cpu.take_dropped(), Some(Addr(0x8000)));
    assert_eq!(cpu.fault(), None);
    assert_eq!(cpu.cycles(), 3);
}

#[test]
fn builder_values_override_the_reset() {
    let cpu = System::new()
        .memory(0xfffc, 0x34)
        .memory(0xfffd, 0x12)
        .memory(0x0010, 1)
        .memory(0x0010, 2)
        .prepare();
    assert_eq!(cpu.get_pc(), Addr(0x1234));
    assert_eq!(cpu.get_sp(), Byte(0xfd));
    assert_eq!(cpu.cycles(), 2);
    let mut cpu = System::default().pc(0x0400).sp(0x80).x(1).y(2).a(3).ps(0x42).prepare();
    assert_eq!(cpu.get_pc(), Addr(0x0400));
    assert_eq!(cpu.get_sp(), Byte(0x80));
    assert_eq!(cpu.inspect(Addr(0x0010)), Some(Byte(0)));
    let mut cpu = System::new().memory(0x0010, 1).memory(0x0010, 2).prepare();
    // the later write wins
    assert_eq!(cpu.inspect(Addr(0x0010)), Some(Byte(2)));
}
