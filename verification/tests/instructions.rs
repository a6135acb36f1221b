use e6502::hardware::cpu::instructions::arithmetic::adc;
use e6502::hardware::cpu::instructions::arithmetic::sbc;
use e6502::hardware::cpu::instructions::branch::bcc;
use e6502::hardware::cpu::instructions::branch::beq;
use e6502::hardware::cpu::instructions::branch::bne;
use e6502::hardware::cpu::instructions::branch::offset_pc;
use e6502::hardware::cpu::instructions::flag::clc;
use e6502::hardware::cpu::instructions::flag::sec;
use e6502::hardware::cpu::instructions::flag::sed;
use e6502::hardware::cpu::instructions::flag::sei;
use e6502::hardware::cpu::instructions::opcode::get_instruction;
use e6502::hardware::cpu::instructions::increment_decrement::dec;
use e6502::hardware::cpu::instructions::increment_decrement::dex;
use e6502::hardware::cpu::instructions::increment_decrement::inc;
use e6502::hardware::cpu::instructions::increment_decrement::inx;
use e6502::hardware::cpu::instructions::increment_decrement::iny;
use e6502::hardware::cpu::instructions::jump_call::jmp;
use e6502::hardware::cpu::instructions::jump_call::jsr;
use e6502::hardware::cpu::instructions::jump_call::rts;
use e6502::hardware::cpu::instructions::load_store::lda;
use e6502::hardware::cpu::instructions::load_store::ldx;
use e6502::hardware::cpu::instructions::load_store::sta;
use e6502::hardware::cpu::instructions::logical::and;
use e6502::hardware::cpu::instructions::logical::bit;
use e6502::hardware::cpu::instructions::logical::cmp;
use e6502::hardware::cpu::instructions::logical::cpx;
use e6502::hardware::cpu::instructions::logical::eor;
use e6502::hardware::cpu::instructions::logical::ora;
use e6502::hardware::cpu::instructions::shift::asl;
use e6502::hardware::cpu::instructions::shift::lsr;
use e6502::hardware::cpu::instructions::shift::rol;
use e6502::hardware::cpu::instructions::shift::ror;
use e6502::hardware::cpu::instructions::stack_op::pha;
use e6502::hardware::cpu::instructions::stack_op::php;
use e6502::hardware::cpu::instructions::stack_op::pla;
use e6502::hardware::cpu::instructions::stack_op::plp;
use e6502::hardware::cpu::instructions::stack_op::tax;
use e6502::hardware::cpu::instructions::stack_op::tsx;
use e6502::hardware::cpu::instructions::stack_op::txs;
use e6502::hardware::cpu::instructions::AddressingMode;
use e6502::hardware::cpu::instructions::Instruction;
use e6502::hardware::cpu::instructions::InstructionArgument;
use e6502::hardware::cpu::system::System;
use e6502::hardware::cpu::Fault;
use e6502::hardware::cpu::Flag;
use e6502::hardware::cpu::Register;
use e6502::hardware::cpu::CPU;
use e6502::types::Addr;
use e6502::types::Byte;
use either::Either;

fn a_of(cpu: &CPU) -> u8 {
    match cpu.get_reg(Register::A) {
        Either::Left(b) => b.0,
        Either::Right(_) => unreachable!(),
    }
}

fn x_of(cpu: &CPU) -> u8 {
    match cpu.get_reg(Register::X) {
        Either::Left(b) => b.0,
        Either::Right(_) => unreachable!(),
    }
}

const MODES: [AddressingMode; 12] = [
    AddressingMode::Immediate,
    AddressingMode::ZeroPage,
    AddressingMode::ZeroPageX,
    AddressingMode::ZeroPageY,
    AddressingMode::Absolute,
    AddressingMode::AbsoluteX,
    AddressingMode::AbsoluteY,
    AddressingMode::Indirect,
    AddressingMode::IndirectX,
    AddressingMode::IndirectY,
    AddressingMode::Relative,
    AddressingMode::Implied,
];

#[test]
fn opcode_table_entries() {
    assert_eq!(get_instruction(Byte(0x69)), (Instruction::ADC, AddressingMode::Immediate));
    assert_eq!(get_instruction(Byte(0x71)), (Instruction::ADC, AddressingMode::IndirectY));
    assert_eq!(get_instruction(Byte(0x31)), (Instruction::AND, AddressingMode::IndirectY));
    assert_eq!(get_instruction(Byte(0x0a)), (Instruction::ASL, AddressingMode::Implied));
    assert_eq!(get_instruction(Byte(0x00)), (Instruction::BRK, AddressingMode::Implied));
    assert_eq!(get_instruction(Byte(0x6c)), (Instruction::JMP, AddressingMode::Indirect));
    assert_eq!(get_instruction(Byte(0x20)), (Instruction::JSR, AddressingMode::Absolute));
    assert_eq!(get_instruction(Byte(0xb6)), (Instruction::LDX, AddressingMode::ZeroPageY));
    assert_eq!(get_instruction(Byte(0xd0)), (Instruction::BNE, AddressingMode::Relative));
    assert_eq!(get_instruction(Byte(0xea)), (Instruction::NOP, AddressingMode::Implied));
}

#[test]
fn opcode_table_has_151_defined_opcodes_and_12_jams() {
    let mut jams = Vec::new();
    let mut defined = 0;
    let mut nops = 0;
    for op in 0..=255u8 {
        match get_instruction(Byte(op)) {
            (Instruction::Jam(n), mode) => {
                assert_eq!(n, op);
                assert_eq!(mode, AddressingMode::Implied);
                jams.push(op);
            }
            (Instruction::NOP, mode) => {
                assert_eq!(mode, AddressingMode::Implied);
                nops += 1;
            }
            _ => defined += 1,
        }
    }
    assert_eq!(
        jams,
        vec![0x02, 0x12, 0x22, 0x32, 0x42, 0x52, 0x62, 0x72, 0x92, 0xb2, 0xd2, 0xf2]
    );
    // 150 opcodes with a meaning of their own besides NOP, and 0xea
    assert_eq!(defined, 150);
    assert_eq!(nops, 256 - 150 - 12);
}

#[test]
fn every_pair_of_the_opcode_table_is_valid() {
    for op in 0..=255u8 {
        let (instruction, mode) = get_instruction(Byte(op));
        assert!(instruction.valid_address_mode(mode), "{:#04x}", op);
    }
}

#[test]
fn valid_address_mode_is_the_opcode_table() {
    let mut listed = 0;
    for op in 0..=255u8 {
        let (instruction, _) = get_instruction(Byte(op));
        if matches!(instruction, Instruction::Jam(_)) {
            continue;
        }
        for mode in MODES {
            let expected = (0..=255u8).any(|o| get_instruction(Byte(o)) == (instruction, mode));
            assert_eq!(instruction.valid_address_mode(mode), expected);
            if expected && get_instruction(Byte(op)).1 == mode {
                listed += 1;
            }
        }
    }
    assert!(listed >= 151);
    assert!(Instruction::ADC.valid_address_mode(AddressingMode::IndirectY));
    assert!(!Instruction::ADC.valid_address_mode(AddressingMode::Indirect));
    assert!(!Instruction::AND.valid_address_mode(AddressingMode::Indirect));
    assert!(Instruction::CMP.valid_address_mode(AddressingMode::Immediate));
    assert!(Instruction::STX.valid_address_mode(AddressingMode::ZeroPage));
    assert!(!Instruction::STX.valid_address_mode(AddressingMode::ZeroPageX));
    assert!(Instruction::JMP.valid_address_mode(AddressingMode::Indirect));
    assert!(!Instruction::JMP.valid_address_mode(AddressingMode::Relative));
    assert!(Instruction::BEQ.valid_address_mode(AddressingMode::Relative));
    assert!(!Instruction::BEQ.valid_address_mode(AddressingMode::Implied));
    assert!(Instruction::Jam(0x02).valid_address_mode(AddressingMode::Implied));
    assert!(Instruction::Jam(0x07).valid_address_mode(AddressingMode::Implied));
    assert!(!Instruction::Jam(0x02).valid_address_mode(AddressingMode::Absolute));
}

#[test]
fn mnemonics_go_both_ways() {
    assert_eq!(Instruction::ADC.name(), "ADC");
    assert_eq!(Instruction::TYA.name(), "TYA");
    assert_eq!(Instruction::Jam(3).name(), "XXX");
    assert_eq!(Instruction::from("ADC"), Instruction::ADC);
    assert_eq!(Instruction::from("TYA"), Instruction::TYA);
    assert_eq!(Instruction::from("adc"), Instruction::Jam(0xff));
    assert_eq!(Instruction::from(""), Instruction::Jam(0xff));
    assert_eq!(Instruction::from("ADCX"), Instruction::Jam(0xff));
    for op in 0..=255u8 {
        let (instruction, _) = get_instruction(Byte(op));
        if !matches!(instruction, Instruction::Jam(_)) {
            assert_eq!(Instruction::from(instruction.name()), instruction);
        }
    }
}

#[test]
fn addressing_modes_find_their_operands() {
    let system = || {
        System::new()
            .memory(0x0400, 0x10)
            .memory(0x0401, 0x20)
            .memory(0x0010, 0x34)
            .memory(0x0011, 0x12)
            .memory(0x0015, 0x78)
            .memory(0x0016, 0x56)
            .memory(0x2010, 0xcd)
            .memory(0x2011, 0xab)
            .pc(0x0400)
            .x(0x05)
            .y(0x03)
    };
    let expect = [
        (AddressingMode::Immediate, InstructionArgument::Immediate(Byte(0x10)), 0x0401, 1),
        (AddressingMode::ZeroPage, InstructionArgument::Address(Addr(0x0010)), 0x0401, 1),
        (AddressingMode::ZeroPageX, InstructionArgument::Address(Addr(0x0015)), 0x0401, 1),
        (AddressingMode::ZeroPageY, InstructionArgument::Address(Addr(0x0013)), 0x0401, 1),
        (AddressingMode::Absolute, InstructionArgument::Address(Addr(0x2010)), 0x0402, 2),
        (AddressingMode::AbsoluteX, InstructionArgument::Address(Addr(0x2015)), 0x0402, 2),
        (AddressingMode::AbsoluteY, InstructionArgument::Address(Addr(0x2013)), 0x0402, 2),
        (AddressingMode::Indirect, InstructionArgument::Address(Addr(0xabcd)), 0x0402, 4),
        (AddressingMode::IndirectX, InstructionArgument::Address(Addr(0x5678)), 0x0401, 3),
        (AddressingMode::IndirectY, InstructionArgument::Address(Addr(0x1237)), 0x0401, 3),
        (AddressingMode::Relative, InstructionArgument::Offset(Byte(0x10)), 0x0401, 1),
        (AddressingMode::Implied, InstructionArgument::Implied, 0x0400, 0),
    ];
    for (mode, arg, pc, cycles) in expect {
        let mut cpu = system().prepare();
        let before = cpu.cycles();
        assert_eq!(cpu.fetch_argument(mode), arg);
        assert_eq!(cpu.get_pc(), Addr(pc));
        assert_eq!(cpu.cycles() - before, cycles);
        let mut cpu = system().prepare();
        assert_eq!(mode.get(&mut cpu), arg);
    }
}

#[test]
fn zero_page_indexing_wraps_in_the_zero_page() {
    let mut cpu = System::new().memory(0x0400, 0xff).pc(0x0400).x(0x02).prepare();
    assert_eq!(
        cpu.fetch_argument(AddressingMode::ZeroPageX),
        InstructionArgument::Address(Addr(0x0001))
    );
    let mut cpu =
        System::new().memory(0x0400, 0xff).memory(0x0401, 0xff).pc(0x0400).y(0x02).prepare();
    assert_eq!(
        cpu.fetch_argument(AddressingMode::AbsoluteY),
        InstructionArgument::Address(Addr(0x0001))
    );
}

#[test]
fn loads_set_zero_and_negative() {
    let mut cpu = System::new().prepare();
    assert!(lda(InstructionArgument::Immediate(Byte(0x00)), &mut cpu));
    assert!(cpu.is_set(Flag::Zero));
    assert!(!cpu.is_set(Flag::Negative));
    assert!(lda(InstructionArgument::Immediate(Byte(0x80)), &mut cpu));
    assert!(!cpu.is_set(Flag::Zero));
    assert!(cpu.is_set(Flag::Negative));
    assert_eq!(a_of(&cpu), 0x80);
    let mut cpu = System::new().memory(0x1234, 0x55).prepare();
    assert!(ldx(InstructionArgument::Address(Addr(0x1234)), &mut cpu));
    assert_eq!(x_of(&cpu), 0x55);
}

#[test]
fn stores_write_and_leave_the_flags() {
    let mut cpu = System::new().a(0x00).prepare();
    let ps = cpu.get_reg(Register::PS);
    assert!(sta(InstructionArgument::Address(Addr(0x0200)), &mut cpu));
    assert_eq!(cpu.get_reg(Register::PS), ps);
    let mut cpu = System::new().a(0x99).prepare();
    assert!(sta(InstructionArgument::Address(Addr(0x0200)), &mut cpu));
    assert_eq!(cpu.inspect(Addr(0x0200)), Some(Byte(0x99)));
    // the stack page can be written like any other
    assert!(sta(InstructionArgument::Address(Addr(0x01f0)), &mut cpu));
    assert_eq!(cpu.inspect(Addr(0x01f0)), Some(Byte(0x99)));
}

#[test]
fn illegal_argument_stops_the_cpu() {
    let mut cpu = System::new().prepare();
    assert!(!lda(InstructionArgument::Implied, &mut cpu));
    assert_eq!(cpu.fault(), Some(Fault::IllegalAddressingMode));
    let mut cpu = System::new().prepare();
    assert!(!sta(InstructionArgument::Immediate(Byte(1)), &mut cpu));
    assert_eq!(cpu.fault(), Some(Fault::IllegalAddressingMode));
    let mut cpu = System::new().prepare();
    assert!(!clc(InstructionArgument::Offset(Byte(1)), &mut cpu));
    assert_eq!(cpu.fault(), Some(Fault::IllegalAddressingMode));
    let mut cpu = System::new().prepare();
    assert!(!bne(InstructionArgument::Implied, &mut cpu));
    assert_eq!(cpu.fault(), Some(Fault::IllegalAddressingMode));
    assert!(!cpu.exec());
}

#[test]
fn logical_operations() {
    let mut cpu = System::new().a(0b1100).prepare();
    and(InstructionArgument::Immediate(Byte(0b1010)), &mut cpu);
    assert_eq!(a_of(&cpu), 0b1000);
    let mut cpu = System::new().a(0b1100).prepare();
    ora(InstructionArgument::Immediate(Byte(0b1010)), &mut cpu);
    assert_eq!(a_of(&cpu), 0b1110);
    let mut cpu = System::new().a(0b1100).prepare();
    eor(InstructionArgument::Immediate(Byte(0b1100)), &mut cpu);
    assert_eq!(a_of(&cpu), 0);
    assert!(cpu.is_set(Flag::Zero));
}

#[test]
fn bit_test_takes_bits_7_and_6_of_memory() {
    let mut cpu = System::new().memory(0x10, 0xc0).a(0x01).prepare();
    assert!(bit(InstructionArgument::Address(Addr(0x10)), &mut cpu));
    assert!(cpu.is_set(Flag::Zero));
    assert!(cpu.is_set(Flag::Negative));
    assert!(cpu.is_set(Flag::Overflow));
    assert_eq!(a_of(&cpu), 0x01);
    let mut cpu = System::new().memory(0x10, 0x01).a(0x01).ps(0xc2).prepare();
    assert!(bit(InstructionArgument::Address(Addr(0x10)), &mut cpu));
    assert!(!cpu.is_set(Flag::Zero));
    assert!(!cpu.is_set(Flag::Negative));
    assert!(!cpu.is_set(Flag::Overflow));
}

#[test]
fn comparisons_set_carry_zero_negative() {
    let mut cpu = System::new().a(0x10).prepare();
    cmp(InstructionArgument::Immediate(Byte(0x10)), &mut cpu);
    assert!(cpu.is_set(Flag::Carry) && cpu.is_set(Flag::Zero) && !cpu.is_set(Flag::Negative));
    cmp(InstructionArgument::Immediate(Byte(0x0f)), &mut cpu);
    assert!(cpu.is_set(Flag::Carry) && !cpu.is_set(Flag::Zero) && !cpu.is_set(Flag::Negative));
    cmp(InstructionArgument::Immediate(Byte(0x11)), &mut cpu);
    assert!(!cpu.is_set(Flag::Carry) && !cpu.is_set(Flag::Zero) && cpu.is_set(Flag::Negative));
    // Negative is "register below operand", not bit 7 of the difference
    let mut cpu = System::new().x(0xff).prepare();
    cpx(InstructionArgument::Immediate(Byte(0x01)), &mut cpu);
    assert!(cpu.is_set(Flag::Carry) && !cpu.is_set(Flag::Zero) && !cpu.is_set(Flag::Negative));
    assert_eq!(a_of(&cpu), 0);
}

#[test]
fn adc_and_sbc_handlers() {
    let mut cpu = System::new().a(0xff).ps(0x01).prepare();
    assert!(adc(InstructionArgument::Immediate(Byte(0x00)), &mut cpu));
    assert_eq!(a_of(&cpu), 0x00);
    assert!(cpu.is_set(Flag::Carry) && cpu.is_set(Flag::Zero));
    assert!(!cpu.is_set(Flag::Overflow));
    // decimal mode is not acted upon
    let mut cpu = System::new().a(0x09).ps(0x08).prepare();
    adc(InstructionArgument::Immediate(Byte(0x01)), &mut cpu);
    assert_eq!(a_of(&cpu), 0x0a);
    assert!(cpu.is_set(Flag::DecimalMode));
    let mut cpu = System::new().a(0x80).ps(0x01).prepare();
    assert!(sbc(InstructionArgument::Immediate(Byte(0x01)), &mut cpu));
    assert_eq!(a_of(&cpu), 0x7f);
    assert!(cpu.is_set(Flag::Carry) && cpu.is_set(Flag::Overflow));
}

#[test]
fn increments_and_decrements_wrap() {
    let mut cpu = System::new().memory(0x20, 0xff).x(0x00).y(0x7f).prepare();
    assert!(inc(InstructionArgument::Address(Addr(0x20)), &mut cpu));
    assert_eq!(cpu.inspect(Addr(0x20)), Some(Byte(0x00)));
    assert!(cpu.is_set(Flag::Zero));
    assert!(dec(InstructionArgument::Address(Addr(0x20)), &mut cpu));
    assert_eq!(cpu.inspect(Addr(0x20)), Some(Byte(0xff)));
    assert!(cpu.is_set(Flag::Negative));
    assert!(dex(InstructionArgument::Implied, &mut cpu));
    assert_eq!(x_of(&cpu), 0xff);
    assert!(inx(InstructionArgument::Implied, &mut cpu));
    assert_eq!(x_of(&cpu), 0x00);
    assert!(iny(InstructionArgument::Implied, &mut cpu));
    assert_eq!(cpu.get_reg(Register::Y), Either::Left(Byte(0x80)));
    assert!(cpu.is_set(Flag::Negative));
}

#[test]
fn shifts_and_rotates() {
    let mut cpu = System::new().a(0x81).prepare();
    assert!(asl(InstructionArgument::Implied, &mut cpu));
    assert_eq!(a_of(&cpu), 0x02);
    assert!(cpu.is_set(Flag::Carry));
    let mut cpu = System::new().a(0x81).prepare();
    assert!(lsr(InstructionArgument::Implied, &mut cpu));
    assert_eq!(a_of(&cpu), 0x40);
    assert!(cpu.is_set(Flag::Carry));
    let mut cpu = System::new().a(0x80).ps(0x01).prepare();
    assert!(rol(InstructionArgument::Implied, &mut cpu));
    assert_eq!(a_of(&cpu), 0x01);
    assert!(cpu.is_set(Flag::Carry));
    let mut cpu = System::new().a(0x01).ps(0x01).prepare();
    assert!(ror(InstructionArgument::Implied, &mut cpu));
    assert_eq!(a_of(&cpu), 0x80);
    assert!(cpu.is_set(Flag::Carry) && cpu.is_set(Flag::Negative));
    let mut cpu = System::new().a(0x02).prepare();
    assert!(ror(InstructionArgument::Implied, &mut cpu));
    assert_eq!(a_of(&cpu), 0x01);
    assert!(!cpu.is_set(Flag::Carry));
    // in memory
    let mut cpu = System::new().memory(0x30, 0x40).prepare();
    assert!(asl(InstructionArgument::Address(Addr(0x30)), &mut cpu));
    assert_eq!(cpu.inspect(Addr(0x30)), Some(Byte(0x80)));
    assert!(cpu.is_set(Flag::Negative) && !cpu.is_set(Flag::Carry));
    assert_eq!(a_of(&cpu), 0);
}

#[test]
fn transfers_and_stack_instructions() {
    let mut cpu = System::new().a(0x80).x(0x01).prepare();
    assert!(tax(InstructionArgument::Implied, &mut cpu));
    assert_eq!(x_of(&cpu), 0x80);
    assert!(cpu.is_set(Flag::Negative));
    // TXS sets no flag
    let mut cpu = System::new().x(0x00).prepare();
    let ps = cpu.get_reg(Register::PS);
    assert!(txs(InstructionArgument::Implied, &mut cpu));
    assert_eq!(cpu.get_sp(), Byte(0));
    assert_eq!(cpu.get_reg(Register::PS), ps);
    assert!(tsx(InstructionArgument::Implied, &mut cpu));
    assert!(cpu.is_set(Flag::Zero));
    let mut cpu = System::new().a(0x42).prepare();
    assert!(pha(InstructionArgument::Implied, &mut cpu));
    lda(InstructionArgument::Immediate(Byte(0)), &mut cpu);
    assert!(pla(InstructionArgument::Implied, &mut cpu));
    assert_eq!(a_of(&cpu), 0x42);
    assert!(!cpu.is_set(Flag::Zero));
    let mut cpu = System::new().ps(0xc3).prepare();
    assert!(php(InstructionArgument::Implied, &mut cpu));
    clc(InstructionArgument::Implied, &mut cpu);
    assert!(plp(InstructionArgument::Implied, &mut cpu));
    assert_eq!(cpu.get_reg(Register::PS), Either::Left(Byte(0xe3)));
}

#[test]
fn flag_instructions() {
    let mut cpu = System::new().ps(0).prepare();
    assert!(sec(InstructionArgument::Implied, &mut cpu));
    assert!(sed(InstructionArgument::Implied, &mut cpu));
    assert!(sei(InstructionArgument::Implied, &mut cpu));
    assert_eq!(cpu.get_reg(Register::PS), Either::Left(Byte(0x2d)));
    assert!(clc(InstructionArgument::Implied, &mut cpu));
    assert_eq!(cpu.get_reg(Register::PS), Either::Left(Byte(0x2c)));
}

#[test]
fn branch_handlers_say_whether_they_left_pc_alone() {
    let mut cpu = System::new().pc(0x0402).ps(0x00).prepare();
    // Carry clear: BCC is taken
    assert!(!bcc(InstructionArgument::Offset(Byte(0x10)), &mut cpu));
    assert_eq!(cpu.get_pc(), Addr(0x0412));
    // Zero clear: BEQ is not
    assert!(beq(InstructionArgument::Offset(Byte(0x10)), &mut cpu));
    assert_eq!(cpu.get_pc(), Addr(0x0412));
    offset_pc(&mut cpu, Byte(0x80));
    assert_eq!(cpu.get_pc(), Addr(0x0392));
    offset_pc(&mut cpu, Byte(0x7f));
    assert_eq!(cpu.get_pc(), Addr(0x0411));
    // wraps at the ends of the address space
    let mut cpu = System::new().pc(0x0001).prepare();
    offset_pc(&mut cpu, Byte(0xfe));
    assert_eq!(cpu.get_pc(), Addr(0xffff));
    offset_pc(&mut cpu, Byte(0x02));
    assert_eq!(cpu.get_pc(), Addr(0x0001));
}

#[test]
fn jumps_and_calls_as_handlers() {
    let mut cpu = System::new().pc(0x0403).prepare();
    let sp = cpu.get_sp();
    assert!(!jsr(InstructionArgument::Address(Addr(0x2010)), &mut cpu));
    assert_eq!(cpu.get_pc(), Addr(0x2010));
    assert!(!rts(InstructionArgument::Implied, &mut cpu));
    assert_eq!(cpu.get_pc(), Addr(0x0403));
    assert_eq!(cpu.get_sp(), sp);
    assert!(!jmp(InstructionArgument::Address(Addr(0x1234)), &mut cpu));
    assert_eq!(cpu.get_pc(), Addr(0x1234));
}

#[test]
fn exec_dispatches_to_the_handlers() {
    let mut cpu = System::new().prepare();
    assert!(Instruction::LDA.exec(InstructionArgument::Immediate(Byte(7)), &mut cpu));
    assert_eq!(a_of(&cpu), 7);
    assert!(Instruction::NOP.exec(InstructionArgument::Implied, &mut cpu));
    assert!(Instruction::TAX.exec(InstructionArgument::Implied, &mut cpu));
    assert_eq!(x_of(&cpu), 7);
    assert!(!Instruction::JMP.exec(InstructionArgument::Address(Addr(0x10)), &mut cpu));
    assert_eq!(cpu.get_pc(), Addr(0x10));
    assert!(!Instruction::Jam(0x12).exec(InstructionArgument::Implied, &mut cpu));
    assert_eq!(cpu.fault(), Some(Fault::Jam(0x12)));
}

#[test]
fn a_small_program_runs_to_its_trap() {
    // sum 1 to 10 into 0x0200, then loop on the spot
    let program = [
        0xa9, 0x00, // LDA #0
        0xa2, 0x0a, // LDX #10
        0x18, // loop: CLC
        0x8e, 0x00, 0x03, // STX $0300
        0x6d, 0x00, 0x03, // ADC $0300
        0xca, // DEX
        0xd0, 0xf6, // BNE loop
        0x8d, 0x00, 0x02, // STA $0200
        0x4c, 0x11, 0x04, // JMP self
    ];
    let mut system = System::new().pc(0x0400);
    for (i, byte) in program.iter().enumerate() {
        system.set_memory(0x0400 + i as u16, *byte);
    }
    let mut cpu = system.prepare();
    let mut instructions = 0;
    while cpu.exec() {
        instructions += 1;
        assert!(instructions <= 100, "Too many instructions!");
    }
    assert!(cpu.is_trapped());
    assert_eq!(cpu.get_pc(), Addr(0x0411));
    assert_eq!(cpu.inspect(Addr(0x0200)), Some(Byte(55)));
    assert_eq!(instructions, 2 + 5 * 10 + 1);
}
