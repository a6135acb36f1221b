use e6502::hardware::bus::Bus;
use e6502::hardware::bus::BusError;
use e6502::hardware::clock::Clock;
use e6502::hardware::cpu::system::System;
use e6502::hardware::cpu::Fault;
use e6502::hardware::cpu::Flag;
use e6502::hardware::cpu::Register;
use e6502::hardware::cpu::CPU;
use e6502::hardware::display::Display;
use e6502::hardware::keyboard::Keyboard;
use e6502::hardware::memory::Memory;
use e6502::hardware::rom::Rom;
use e6502::hardware::Peripheral;
use e6502::types::Addr;
use e6502::types::Bit;
use e6502::types::Byte;
use either::Either;

fn machine(program: &[u8], at: u16) -> System {
    let mut system = System::new().memory(0xfffc, at as u8).memory(0xfffd, (at >> 8) as u8);
    for (i, byte) in program.iter().enumerate() {
        system.set_memory(at + i as u16, *byte);
    }
    system
}

#[test]
fn test_adc() {
    let mut cpu = System::new()
        .memory(0x0400, 0x69)
        .memory(0x0401, 0x34)
        .pc(0x400)
        .a(0x35)
        .prepare();

    cpu.exec();
    assert_eq!(cpu.get_reg(Register::A), Either::Left(Byte(0x69)));
    assert_eq!(cpu.cycles(), 4);
}

#[test]
fn lda_immediate_loads_a_and_steps_pc_by_two() {
    let mut cpu = machine(&[0xa9, 0x42, 0x00], 0x0400).prepare();
    assert_eq!(cpu.get_pc(), Addr(0x0400));
    let before = cpu.cycles();
    assert!(cpu.exec());
    assert_eq!(cpu.cycles() - before, 2);
    assert_eq!(cpu.get_reg(Register::A), Either::Left(Byte(0x42)));
    assert!(!cpu.is_set(Flag::Zero));
    assert!(!cpu.is_set(Flag::Negative));
    assert_eq!(cpu.get_pc(), Addr(0x0402));
}

#[test]
fn adc_with_carry_in_clear() {
    let mut cpu = machine(&[0x69, 0x34], 0x0400).a(0x35).prepare();
    assert!(!cpu.is_set(Flag::Carry));
    assert!(cpu.exec());
    assert_eq!(cpu.get_reg(Register::A), Either::Left(Byte(0x69)));
    assert!(!cpu.is_set(Flag::Carry));
    assert!(!cpu.is_set(Flag::Overflow));
    assert!(!cpu.is_set(Flag::Zero));
    assert!(!cpu.is_set(Flag::Negative));
    assert_eq!(cpu.cycles(), 4);
}

#[test]
fn adc_sets_carry_overflow_zero_negative() {
    // 0x80 + 0x80 + 0 = 0x100: carry, zero, overflow, not negative
    let mut cpu = machine(&[0x69, 0x80], 0x0400).a(0x80).prepare();
    cpu.exec();
    assert_eq!(cpu.get_reg(Register::A), Either::Left(Byte(0x00)));
    assert!(cpu.is_set(Flag::Carry));
    assert!(cpu.is_set(Flag::Overflow));
    assert!(cpu.is_set(Flag::Zero));
    assert!(!cpu.is_set(Flag::Negative));
    // 0x7f + 0x00 + carry = 0x80: overflow, negative
    let mut cpu = machine(&[0x69, 0x00], 0x0400).a(0x7f).ps(0x01).prepare();
    cpu.exec();
    assert_eq!(cpu.get_reg(Register::A), Either::Left(Byte(0x80)));
    assert!(!cpu.is_set(Flag::Carry));
    assert!(cpu.is_set(Flag::Overflow));
    assert!(!cpu.is_set(Flag::Zero));
    assert!(cpu.is_set(Flag::Negative));
}

#[test]
fn adc_agrees_with_the_sum_for_all_inputs() {
    for a in 0..=255u16 {
        for v in [0u16, 1, 0x34, 0x7f, 0x80, 0xff] {
            for c in 0..=1u16 {
                let mut cpu =
                    machine(&[0x69, v as u8], 0x0400).a(a as u8).ps(c as u8).prepare();
                cpu.exec();
                let s = a + v + c;
                let r = (s % 256) as u8;
                assert_eq!(cpu.get_reg(Register::A), Either::Left(Byte(r)));
                assert_eq!(cpu.is_set(Flag::Carry), s > 0xff);
                assert_eq!(cpu.is_set(Flag::Zero), r == 0);
                assert_eq!(cpu.is_set(Flag::Negative), r & 0x80 != 0);
                assert_eq!(
                    cpu.is_set(Flag::Overflow),
                    (!(a as u8 ^ v as u8) & (a as u8 ^ r)) & 0x80 != 0
                );
            }
        }
    }
}

#[test]
fn sbc_subtracts_with_borrow() {
    // 0x50 - 0x10 with carry set (no borrow) = 0x40
    let mut cpu = machine(&[0xe9, 0x10], 0x0400).a(0x50).ps(0x01).prepare();
    cpu.exec();
    assert_eq!(cpu.get_reg(Register::A), Either::Left(Byte(0x40)));
    assert!(cpu.is_set(Flag::Carry));
    // 0x00 - 0x01 with carry set = 0xff, borrow
    let mut cpu = machine(&[0xe9, 0x01], 0x0400).a(0x00).ps(0x01).prepare();
    cpu.exec();
    assert_eq!(cpu.get_reg(Register::A), Either::Left(Byte(0xff)));
    assert!(!cpu.is_set(Flag::Carry));
    assert!(cpu.is_set(Flag::Negative));
}

#[test]
fn branch_to_self_traps() {
    // BNE -2 with Zero clear
    let mut cpu = machine(&[0xd0, 0xfe], 0x0400).prepare();
    assert!(!cpu.is_set(Flag::Zero));
    assert!(!cpu.exec());
    assert_eq!(cpu.get_pc(), Addr(0x0400));
    assert!(cpu.is_trapped());
    assert!(!cpu.exec());
}

#[test]
fn branch_not_taken_steps_by_two() {
    // BEQ +5 with Zero clear
    let mut cpu = machine(&[0xf0, 0x05], 0x0400).prepare();
    assert!(cpu.exec());
    assert_eq!(cpu.get_pc(), Addr(0x0402));
}

#[test]
fn branch_taken_adds_signed_offset() {
    // BNE +5
    let mut cpu = machine(&[0xd0, 0x05], 0x0400).prepare();
    assert!(cpu.exec());
    assert_eq!(cpu.get_pc(), Addr(0x0407));
    // BNE -6
    let mut cpu = machine(&[0xd0, 0xfa], 0x0400).prepare();
    assert!(cpu.exec());
    assert_eq!(cpu.get_pc(), Addr(0x03fc));
    // BCS with carry set, +127
    let mut cpu = machine(&[0xb0, 0x7f], 0x0400).ps(0x01).prepare();
    assert!(cpu.exec());
    assert_eq!(cpu.get_pc(), Addr(0x0481));
}

#[test]
fn jsr_rts_round_trip() {
    let mut cpu = machine(&[0x20, 0x10, 0x20], 0x0400).memory(0x2010, 0x60).prepare();
    let sp = cpu.get_sp();
    assert!(cpu.exec());
    assert_eq!(cpu.get_pc(), Addr(0x2010));
    assert_eq!(cpu.get_sp(), Byte(sp.0 - 2));
    // the stack holds the address of the last byte of the JSR
    let low = cpu.inspect(Addr(0x0100 + sp.0 as u16 - 1)).unwrap();
    let high = cpu.inspect(Addr(0x0100 + sp.0 as u16)).unwrap();
    assert_eq!(Addr::new(high, low), Addr(0x0402));
    assert!(cpu.exec());
    assert_eq!(cpu.get_pc(), Addr(0x0403));
    assert_eq!(cpu.get_sp(), sp);
}

#[test]
fn nmi_is_taken_at_the_next_exec() {
    let mut cpu = machine(&[0xea], 0x0400)
        .memory(0xfffa, 0x00)
        .memory(0xfffb, 0x30)
        .memory(0x3000, 0xea)
        .memory(0x3001, 0xea)
        .ps(0x01)
        .prepare();
    let sp = cpu.get_sp();
    cpu.pend_nmi();
    assert!(cpu.exec());
    // the NOP at 0x3000 ran
    assert_eq!(cpu.get_pc(), Addr(0x3001));
    assert!(cpu.is_set(Flag::InterruptDisable));
    assert_eq!(cpu.get_sp(), Byte(sp.0 - 3));
    assert_eq!(cpu.inspect(Addr(0x0100 + sp.0 as u16)), Some(Byte(0x04)));
    assert_eq!(cpu.inspect(Addr(0x0100 + sp.0 as u16 - 1)), Some(Byte(0x00)));
    // the status goes onto the stack as it is stored
    assert_eq!(cpu.inspect(Addr(0x0100 + sp.0 as u16 - 2)), Some(Byte(0x01)));
    // it is not taken twice
    assert!(cpu.exec());
    assert_eq!(cpu.get_pc(), Addr(0x3002));
}

#[test]
fn nmi_right_after_reset_pushes_the_stored_status() {
    let mut cpu = machine(&[0xea], 0x0400)
        .memory(0xfffa, 0x00)
        .memory(0xfffb, 0x30)
        .memory(0x3000, 0xea)
        .a(0x11)
        .x(0x22)
        .y(0x33)
        .prepare();
    assert_eq!(cpu.get_sp(), Byte(0xfd));
    assert_eq!(cpu.get_reg(Register::PS), Either::Left(Byte(0x24)));
    cpu.pend_nmi();
    cpu.nmi_irq();
    assert_eq!(cpu.get_pc(), Addr(0x3000));
    assert_eq!(cpu.get_sp(), Byte(0xfa));
    assert_eq!(cpu.inspect(Addr(0x01fd)), Some(Byte(0x04)));
    assert_eq!(cpu.inspect(Addr(0x01fc)), Some(Byte(0x00)));
    assert_eq!(cpu.inspect(Addr(0x01fb)), Some(Byte(0x04)));
    assert_eq!(cpu.get_reg(Register::A), Either::Left(Byte(0x11)));
    assert_eq!(cpu.get_reg(Register::X), Either::Left(Byte(0x22)));
    assert_eq!(cpu.get_reg(Register::Y), Either::Left(Byte(0x33)));
    assert!(cpu.is_set(Flag::InterruptDisable));
}

#[test]
fn irq_pushes_the_stored_status_and_rti_restores_it() {
    // at the handler: RTI
    let mut cpu = machine(&[0xea], 0x0400)
        .memory(0xfffe, 0x00)
        .memory(0xffff, 0x30)
        .memory(0x3000, 0x40)
        .ps(0xc3)
        .prepare();
    let sp = cpu.get_sp();
    let ps = cpu.get_reg(Register::PS);
    assert_eq!(ps, Either::Left(Byte(0xe3)));
    cpu.pend_irq();
    cpu.irq();
    assert_eq!(cpu.get_pc(), Addr(0x3000));
    assert_eq!(cpu.inspect(Addr(0x0100 + sp.0 as u16 - 2)), Some(Byte(0xc3)));
    assert!(cpu.exec());
    assert_eq!(cpu.get_pc(), Addr(0x0400));
    assert_eq!(cpu.get_sp(), sp);
    assert_eq!(cpu.get_reg(Register::PS), ps);
}

#[test]
fn irq_waits_while_interrupts_are_disabled() {
    // CLI; NOP; at the handler: RTI
    let mut cpu = machine(&[0x58, 0xea, 0xea], 0x0400)
        .memory(0xfffe, 0x00)
        .memory(0xffff, 0x30)
        .memory(0x3000, 0x40)
        .prepare();
    assert!(cpu.is_set(Flag::InterruptDisable));
    cpu.pend_irq();
    assert!(cpu.exec());
    // masked: the CLI ran
    assert_eq!(cpu.get_pc(), Addr(0x0401));
    assert!(!cpu.is_set(Flag::InterruptDisable));
    let sp = cpu.get_sp();
    let ps = cpu.get_reg(Register::PS);
    // now it is taken, and the RTI at the handler runs and comes back
    assert!(cpu.exec());
    assert_eq!(cpu.get_pc(), Addr(0x0401));
    assert_eq!(cpu.get_sp(), sp);
    assert_eq!(cpu.get_reg(Register::PS), ps);
    // the request is gone: the NOP runs
    assert!(cpu.exec());
    assert_eq!(cpu.get_pc(), Addr(0x0402));
}

#[test]
fn php_plp_restores_the_status() {
    // SEC; SED; PHP; CLC; CLD; PLP
    let mut cpu = machine(&[0x38, 0xf8, 0x08, 0x18, 0xd8, 0x28], 0x0400).prepare();
    cpu.exec();
    cpu.exec();
    let ps = cpu.get_reg(Register::PS);
    let sp = cpu.get_sp();
    cpu.exec();
    // the pushed copy has Break and Reserved set
    assert_eq!(cpu.inspect(Addr(0x0100 + sp.0 as u16)), Some(Byte(0x3d)));
    cpu.exec();
    cpu.exec();
    assert!(!cpu.is_set(Flag::Carry));
    cpu.exec();
    assert_eq!(cpu.get_reg(Register::PS), ps);
    assert_eq!(cpu.get_reg(Register::PS), Either::Left(Byte(0x2d)));
    assert!(!cpu.is_set(Flag::Break));
    assert!(cpu.is_set(Flag::Reserved));
    assert_eq!(cpu.get_sp(), sp);
}

#[test]
fn push_then_pop_gives_the_byte_back() {
    let mut cpu = System::new().prepare();
    for sp in [0xfdu8, 0x00, 0xff, 0x01] {
        let mut cpu2 = System::new().sp(sp).prepare();
        cpu2.push_stack(Byte(0xa5));
        assert_eq!(cpu2.get_sp(), Byte(sp.wrapping_sub(1)));
        assert_eq!(cpu2.pop_stack(), Byte(0xa5));
        assert_eq!(cpu2.get_sp(), Byte(sp));
    }
    cpu.push_stack(Byte(1));
    cpu.push_stack(Byte(2));
    assert_eq!(cpu.pop_stack(), Byte(2));
    assert_eq!(cpu.pop_stack(), Byte(1));
}

#[test]
fn reserved_always_reads_as_set() {
    let mut cpu = System::new().ps(0x00).prepare();
    assert!(cpu.is_set(Flag::Reserved));
    assert_eq!(cpu.get_reg(Register::PS), Either::Left(Byte(0x20)));
    cpu.set(Flag::Reserved, Bit(false));
    assert!(cpu.is_set(Flag::Reserved));
    let cpu = System::new().ps(0xff).prepare();
    // Break is not taken over
    assert_eq!(cpu.get_reg(Register::PS), Either::Left(Byte(0xef)));
    assert!(!cpu.is_set(Flag::Break));
}

#[test]
fn exec_refuses_before_reset() {
    let mut bus = Bus::new();
    bus.register(Peripheral::Ram(Memory::new(Addr(0), Addr(0xffff)))).unwrap();
    let mut cpu = CPU::new(bus, Clock::new());
    assert_eq!(cpu.get_pc(), Addr(0xfffc));
    assert!(!cpu.exec());
    assert_eq!(cpu.get_pc(), Addr(0xfffc));
    assert_eq!(cpu.cycles(), 0);
    cpu.reset();
    assert_eq!(cpu.cycles(), 2);
    assert_eq!(cpu.get_sp(), Byte(0xfd));
    assert!(cpu.is_set(Flag::InterruptDisable));
    assert_eq!(cpu.get_pc(), Addr(0x0000));
    // BRK at 0 with the IRQ vector 0: PC comes back to 0, which traps
    assert!(!cpu.exec());
}

#[test]
fn jam_opcode_stops_the_cpu() {
    let mut cpu = machine(&[0x02], 0x0400).prepare();
    assert!(!cpu.exec());
    assert_eq!(cpu.fault(), Some(Fault::Jam(0x02)));
    assert!(!cpu.is_trapped());
    assert!(!cpu.exec());
}

#[test]
fn undefined_opcode_is_a_nop() {
    let mut cpu = machine(&[0xff, 0x03], 0x0400).a(7).prepare();
    let ps = cpu.get_reg(Register::PS);
    assert!(cpu.exec());
    assert_eq!(cpu.get_pc(), Addr(0x0401));
    assert!(cpu.exec());
    assert_eq!(cpu.get_pc(), Addr(0x0402));
    assert_eq!(cpu.get_reg(Register::A), Either::Left(Byte(7)));
    assert_eq!(cpu.get_reg(Register::PS), ps);
}

#[test]
fn read_of_an_unmapped_address_stops_the_cpu() {
    let mut bus = Bus::new();
    bus.register(Peripheral::Ram(Memory::default())).unwrap();
    bus.register(Peripheral::Rom(Rom::new(None))).unwrap();
    let mut cpu = CPU::new(bus, Clock::new());
    cpu.reset();
    // LDA $4000 cannot be built in ROM here; read directly
    assert_eq!(cpu.read(Addr(0x4000)), Byte(0));
    assert_eq!(cpu.fault(), Some(Fault::UnmappedRead(Addr(0x4000))));
    assert!(!cpu.exec());
}

#[test]
fn device_routing() {
    let mut bus = Bus::new();
    assert_eq!(bus.register(Peripheral::Ram(Memory::new(Addr(0x0000), Addr(0x3fff)))), Ok(()));
    assert_eq!(bus.register(Peripheral::Display(Display::new())), Ok(()));
    assert!(bus.write(Addr(0x5002), Byte(0x48)));
    assert_eq!(bus.read(Addr(0x5003)), Byte(0x08));
    assert_eq!(bus.read(Addr(0x5002)), Byte(0x00));
    assert_eq!(bus.take_output(), vec![0x48u8]);
    assert_eq!(bus.take_output(), Vec::<u8>::new());
    // RAM keeps what was written
    assert!(bus.write(Addr(0x1234), Byte(0x99)));
    assert_eq!(bus.read(Addr(0x1234)), Byte(0x99));
    assert_eq!(bus.read(Addr(0x1235)), Byte(0x00));
    // nobody owns 0x4000
    assert!(!bus.is_mapped(Addr(0x4000)));
    assert!(!bus.write(Addr(0x4000), Byte(1)));
}

#[test]
fn overlapping_devices_are_refused() {
    let mut bus = Bus::new();
    assert_eq!(bus.register(Peripheral::Ram(Memory::new(Addr(0x0000), Addr(0x3fff)))), Ok(()));
    assert_eq!(
        bus.register(Peripheral::Ram(Memory::new(Addr(0x3fff), Addr(0x4fff)))),
        Err(BusError::OverlappingRange)
    );
    assert!(!bus.is_mapped(Addr(0x4000)));
    assert_eq!(bus.register(Peripheral::Ram(Memory::new(Addr(0x4000), Addr(0x4fff)))), Ok(()));
    assert_eq!(
        bus.register(Peripheral::Keyboard(Keyboard::new())),
        Ok(())
    );
    assert_eq!(
        bus.register(Peripheral::Ram(Memory::new(Addr(0x5001), Addr(0x5001)))),
        Err(BusError::OverlappingRange)
    );
    assert_eq!(bus.register(Peripheral::Display(Display::new())), Ok(()));
    assert_eq!(bus.register(Peripheral::Rom(Rom::new(None))), Ok(()));
    assert_eq!(bus.register(Peripheral::Rom(Rom::new(None))), Err(BusError::OverlappingRange));
}

#[test]
fn ram_with_a_start_above_zero() {
    let mut bus = Bus::new();
    bus.register(Peripheral::Ram(Memory::new(Addr(0x2000), Addr(0x20ff)))).unwrap();
    assert!(bus.write(Addr(0x2000), Byte(1)));
    assert!(bus.write(Addr(0x20ff), Byte(2)));
    assert_eq!(bus.read(Addr(0x2000)), Byte(1));
    assert_eq!(bus.read(Addr(0x20ff)), Byte(2));
    assert!(!bus.is_mapped(Addr(0x1fff)));
    assert!(!bus.is_mapped(Addr(0x2100)));
}

#[test]
fn rom_holds_its_image_and_rejects_writes() {
    let mut image = vec![0u8; 0x8100];
    image[0] = 0xa9;
    image[0x80fc] = 0x00;
    image[0x80fd] = 0x7f;
    let mut bus = Bus::new();
    bus.register(Peripheral::Rom(Rom::new(Some(image)))).unwrap();
    assert_eq!(bus.read(Addr(0x7f00)), Byte(0xa9));
    assert_eq!(bus.read(Addr(0xfffd)), Byte(0x7f));
    assert!(!bus.write(Addr(0x7f00), Byte(0x11)));
    assert_eq!(bus.read(Addr(0x7f00)), Byte(0xa9));
    // a short image is padded with zeroes, a long one is cut
    let mut bus = Bus::new();
    bus.register(Peripheral::Rom(Rom::new(Some(vec![7u8; 3])))).unwrap();
    assert_eq!(bus.read(Addr(0x7f02)), Byte(7));
    assert_eq!(bus.read(Addr(0x7f03)), Byte(0));
    let mut bus = Bus::new();
    bus.register(Peripheral::Rom(Rom::new(Some(vec![7u8; 0x9000])))).unwrap();
    assert_eq!(bus.read(Addr(0xffff)), Byte(7));
}

#[test]
fn keyboard_is_a_queue() {
    let mut bus = Bus::new();
    assert!(!bus.key_press(0x41));
    bus.register(Peripheral::Keyboard(Keyboard::new())).unwrap();
    assert_eq!(bus.read(Addr(0x5001)), Byte(0x00));
    assert_eq!(bus.read(Addr(0x5000)), Byte(0x00));
    assert!(bus.key_press(0x41));
    assert!(bus.key_press(0x42));
    assert_eq!(bus.read(Addr(0x5001)), Byte(0x08));
    assert_eq!(bus.read(Addr(0x5000)), Byte(0x41));
    assert_eq!(bus.read(Addr(0x5001)), Byte(0x08));
    assert_eq!(bus.read(Addr(0x5000)), Byte(0x42));
    assert_eq!(bus.read(Addr(0x5001)), Byte(0x00));
    assert!(!bus.write(Addr(0x5000), Byte(1)));
}

#[test]
fn clock_handshake() {
    let mut clk = Clock::new();
    assert_eq!(clk.ticks(), 0);
    assert!(clk.wait_tock());
    assert!(!clk.wait_tick());
    // a tock without a tick has to wait
    assert!(!clk.tock());
    assert_eq!(clk.ticks(), 0);
    assert!(clk.tick());
    assert!(clk.wait_tick());
    assert!(!clk.wait_tock());
    // a second tick has to wait
    assert!(!clk.tick());
    assert!(clk.tock());
    assert_eq!(clk.ticks(), 1);
    assert!(clk.wait_tock());
    clk.cycle();
    assert_eq!(clk.ticks(), 2);
    assert!(clk.tick());
    clk.cycle();
    assert_eq!(clk.ticks(), 3);
    assert!(clk.wait_tock());
}

#[test]
fn debug_mode_leaves_the_clock_alone() {
    let mut cpu = machine(&[0xa9, 0x42], 0x0400).prepare();
    cpu.debug();
    assert!(cpu.debug_exec());
    assert_eq!(cpu.cycles(), 2);
    assert_eq!(cpu.get_reg(Register::A), Either::Left(Byte(0x42)));
}

#[test]
fn breakpoint_stops_once() {
    let mut cpu = machine(&[0xea, 0xea, 0xea], 0x0400).prepare();
    cpu.debug();
    cpu.breakpoint(Addr(0x0401));
    assert!(cpu.debug_exec());
    assert_eq!(cpu.get_pc(), Addr(0x0401));
    // hit: nothing runs
    assert!(!cpu.debug_exec());
    assert_eq!(cpu.get_pc(), Addr(0x0401));
    // resumed
    assert!(cpu.debug_exec());
    assert_eq!(cpu.get_pc(), Addr(0x0402));
    assert!(cpu.debug_exec());
    assert_eq!(cpu.get_pc(), Addr(0x0403));
}

#[test]
fn set_reg_writes_registers_in_debug_mode() {
    let mut cpu = System::new().prepare();
    cpu.debug();
    cpu.set_reg(Register::A, Either::Left(Byte(1)));
    cpu.set_reg(Register::X, Either::Left(Byte(2)));
    cpu.set_reg(Register::Y, Either::Left(Byte(3)));
    cpu.set_reg(Register::SP, Either::Left(Byte(4)));
    cpu.set_reg(Register::PS, Either::Left(Byte(0xff)));
    cpu.set_reg(Register::PC, Either::Right(Addr(0x1234)));
    assert_eq!(cpu.get_reg(Register::A), Either::Left(Byte(1)));
    assert_eq!(cpu.get_reg(Register::X), Either::Left(Byte(2)));
    assert_eq!(cpu.get_reg(Register::Y), Either::Left(Byte(3)));
    assert_eq!(cpu.get_reg(Register::SP), Either::Left(Byte(4)));
    assert_eq!(cpu.get_reg(Register::PS), Either::Left(Byte(0xef)));
    assert_eq!(cpu.get_reg(Register::PC), Either::Right(Addr(0x1234)));
}

#[test]
fn brk_pushes_the_address_two_past_and_the_status() {
    let mut cpu = machine(&[0x00], 0x04ff)
        .memory(0xfffe, 0x00)
        .memory(0xffff, 0x30)
        .ps(0x01)
        .prepare();
    let sp = cpu.get_sp();
    assert!(cpu.exec());
    assert_eq!(cpu.get_pc(), Addr(0x3000));
    assert!(cpu.is_set(Flag::InterruptDisable));
    assert_eq!(cpu.inspect(Addr(0x0100 + sp.0 as u16)), Some(Byte(0x05)));
    assert_eq!(cpu.inspect(Addr(0x0100 + sp.0 as u16 - 1)), Some(Byte(0x01)));
    assert_eq!(cpu.inspect(Addr(0x0100 + sp.0 as u16 - 2)), Some(Byte(0x31)));
}
