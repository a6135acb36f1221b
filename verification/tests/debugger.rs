use e6502::debugger::split_words;
use e6502::debugger::Command;
use e6502::debugger::Debugger;
use e6502::debugger::ParseError;
use e6502::debugger::Reply;
use e6502::hardware::bus::Bus;
use e6502::hardware::clock::Clock;
use e6502::hardware::cpu::system::System;
use e6502::hardware::cpu::CPU;
use e6502::hardware::memory::Memory;
use e6502::hardware::Peripheral;
use e6502::hardware::cpu::Register;
use e6502::types::Addr;
use e6502::types::Byte;
use either::Either;

#[test]
fn lines_split_into_words() {
    assert_eq!(split_words(b""), Vec::<Vec<u8>>::new());
    assert_eq!(split_words(b"  \t "), Vec::<Vec<u8>>::new());
    assert_eq!(split_words(b"help"), vec![b"help".to_vec()]);
    assert_eq!(
        split_words(b"  set\tmem  0x10 7\n"),
        vec![b"set".to_vec(), b"mem".to_vec(), b"0x10".to_vec(), b"7".to_vec()]
    );
}

#[test]
fn words_are_split_at_every_white_space_character() {
    let spaces = [
        "\u{0009}", "\u{000a}", "\u{000b}", "\u{000c}", "\u{000d}", "\u{0020}", "\u{0085}",
        "\u{00a0}", "\u{1680}", "\u{2000}", "\u{2005}", "\u{200a}", "\u{2028}", "\u{2029}",
        "\u{202f}", "\u{205f}", "\u{3000}",
    ];
    for space in spaces {
        let line = format!("{space}get{space}{space}reg{space}x{space}");
        assert_eq!(
            split_words(line.as_bytes()),
            vec![b"get".to_vec(), b"reg".to_vec(), b"x".to_vec()],
            "{:?}",
            space
        );
        assert_eq!(Command::parse_line(&line), Ok(Command::LoadReg(Register::X)));
    }
    // characters that are no white space stay in their words
    for other in ["\u{200b}", "\u{00a1}", "\u{2060}", "\u{e280}", "\u{feff}", "\u{1f600}"] {
        let line = format!("a{other}b c");
        let expected: Vec<Vec<u8>> =
            line.split_whitespace().map(|w| w.as_bytes().to_vec()).collect();
        assert_eq!(expected.len(), 2);
        assert_eq!(split_words(line.as_bytes()), expected);
    }
    // a lead byte at the end of the bytes is no white space
    assert_eq!(split_words(&[0x61, 0xe2, 0x80]), vec![vec![0x61, 0xe2, 0x80]]);
    assert_eq!(split_words(&[0xc2]), vec![vec![0xc2]]);
}

#[test]
fn every_command_of_the_grammar() {
    assert_eq!(Command::parse_line("help"), Ok(Command::Help));
    assert_eq!(Command::parse_line("break 0x0400"), Ok(Command::Break(Addr(0x0400))));
    assert_eq!(Command::parse_line("b 1024"), Ok(Command::Break(Addr(1024))));
    assert_eq!(Command::parse_line("run"), Ok(Command::Run));
    assert_eq!(Command::parse_line("r"), Ok(Command::Run));
    assert_eq!(Command::parse_line("step"), Ok(Command::Step));
    assert_eq!(Command::parse_line("s"), Ok(Command::Step));
    assert_eq!(
        Command::parse_line("set mem 0x0200 0xff"),
        Ok(Command::StoreMem(Addr(0x0200), Byte(0xff)))
    );
    assert_eq!(
        Command::parse_line("set reg A 0b101"),
        Ok(Command::StoreReg(Register::A, Byte(5)))
    );
    assert_eq!(Command::parse_line("set reg x 7"), Ok(Command::StoreReg(Register::X, Byte(7))));
    assert_eq!(Command::parse_line("set reg Ps 7"), Ok(Command::StoreReg(Register::PS, Byte(7))));
    assert_eq!(
        Command::parse_line("set reg PC 0x1234"),
        Ok(Command::StoreRegLong(Register::PC, Addr(0x1234)))
    );
    assert_eq!(
        Command::parse_line("set reg sp 0x01fd"),
        Ok(Command::StoreRegLong(Register::SP, Addr(0x01fd)))
    );
    assert_eq!(Command::parse_line("get mem 65535"), Ok(Command::LoadMem(Addr(0xffff))));
    assert_eq!(Command::parse_line("get reg y"), Ok(Command::LoadReg(Register::Y)));
    assert_eq!(Command::parse_line("regs"), Ok(Command::ShowRegs));
    assert_eq!(Command::parse_line(""), Ok(Command::Nothing));
    assert_eq!(Command::parse_line("   "), Ok(Command::Nothing));
    assert_eq!(Command::parse_line("  step  "), Ok(Command::Step));
}

#[test]
fn what_is_no_command() {
    assert_eq!(Command::parse_line("hello"), Err(ParseError::InvalidCommand));
    assert_eq!(Command::parse_line("help me"), Err(ParseError::InvalidCommand));
    assert_eq!(Command::parse_line("break"), Err(ParseError::InvalidCommand));
    assert_eq!(Command::parse_line("HELP"), Err(ParseError::InvalidCommand));
    assert_eq!(Command::parse_line("set mem 1"), Err(ParseError::InvalidCommand));
    assert_eq!(Command::parse_line("get reg q"), Err(ParseError::InvalidRegister));
    assert_eq!(Command::parse_line("set reg ax 1"), Err(ParseError::InvalidRegister));
    assert_eq!(Command::parse_line("break 0x"), Err(ParseError::EmptyNumber));
    assert_eq!(Command::parse_line("break 0b"), Err(ParseError::EmptyNumber));
    assert_eq!(Command::parse_line("break 12a"), Err(ParseError::InvalidDigit));
    assert_eq!(Command::parse_line("break 0b102"), Err(ParseError::InvalidDigit));
    assert_eq!(Command::parse_line("break 0xg"), Err(ParseError::InvalidDigit));
    assert_eq!(Command::parse_line("break -1"), Err(ParseError::InvalidDigit));
    assert_eq!(Command::parse_line("break +"), Err(ParseError::InvalidDigit));
    assert_eq!(Command::parse_line("break 65536"), Err(ParseError::NumberTooLarge));
    assert_eq!(Command::parse_line("break 0x10000"), Err(ParseError::NumberTooLarge));
    assert_eq!(Command::parse_line("set mem 0 256"), Err(ParseError::NumberTooLarge));
    assert_eq!(Command::parse_line("set reg a 0x100"), Err(ParseError::NumberTooLarge));
    assert_eq!(
        Command::parse_line("break 99999999999999999999999999"),
        Err(ParseError::NumberTooLarge)
    );
    // the first thing that is wrong, from the left, is what is reported
    assert_eq!(Command::parse_line("break 99999z"), Err(ParseError::NumberTooLarge));
    assert_eq!(Command::parse_line("break 9z9999"), Err(ParseError::InvalidDigit));
    assert_eq!(Command::parse_line("set mem 0 256z"), Err(ParseError::NumberTooLarge));
    assert_eq!(Command::parse_line("set mem 0 25z6"), Err(ParseError::InvalidDigit));
    assert_eq!(Command::parse_line("set mem 0z 256"), Err(ParseError::InvalidDigit));
}

#[test]
fn numbers_in_three_radixes() {
    assert_eq!(Addr::try_from("0"), Ok(Addr(0)));
    assert_eq!(Addr::try_from("65535"), Ok(Addr(0xffff)));
    assert_eq!(Addr::try_from("0xffff"), Ok(Addr(0xffff)));
    assert_eq!(Addr::try_from("0xFFFF"), Ok(Addr(0xffff)));
    assert_eq!(Addr::try_from("0xAbCd"), Ok(Addr(0xabcd)));
    assert_eq!(Addr::try_from("0b1111111111111111"), Ok(Addr(0xffff)));
    assert_eq!(Addr::try_from("0b10"), Ok(Addr(2)));
    assert_eq!(Addr::try_from("+12"), Ok(Addr(12)));
    assert_eq!(Addr::try_from("0x+c"), Ok(Addr(12)));
    assert_eq!(Addr::try_from("000000012"), Ok(Addr(12)));
    assert_eq!(Addr::try_from(""), Err(ParseError::EmptyNumber));
    assert_eq!(Addr::try_from("0X10"), Err(ParseError::InvalidDigit));
    assert_eq!(Addr::try_from("1 2"), Err(ParseError::InvalidDigit));
    assert_eq!(Byte::try_from("255"), Ok(Byte(255)));
    assert_eq!(Byte::try_from("0xff"), Ok(Byte(255)));
    assert_eq!(Byte::try_from("0b11111111"), Ok(Byte(255)));
    assert_eq!(Byte::try_from("256"), Err(ParseError::NumberTooLarge));
    assert_eq!(Byte::try_from("0x"), Err(ParseError::EmptyNumber));
}

#[test]
fn register_names() {
    assert_eq!(Register::try_from("a"), Ok(Register::A));
    assert_eq!(Register::try_from("A"), Ok(Register::A));
    assert_eq!(Register::try_from("x"), Ok(Register::X));
    assert_eq!(Register::try_from("Y"), Ok(Register::Y));
    assert_eq!(Register::try_from("ps"), Ok(Register::PS));
    assert_eq!(Register::try_from("pC"), Ok(Register::PC));
    assert_eq!(Register::try_from("SP"), Ok(Register::SP));
    assert_eq!(Register::try_from(""), Err(ParseError::InvalidRegister));
    assert_eq!(Register::try_from("p"), Err(ParseError::InvalidRegister));
    assert_eq!(Register::try_from("psp"), Err(ParseError::InvalidRegister));
}

fn debugger() -> Debugger {
    // LDA #$42; TAX; NOP; JMP self
    let cpu = System::new()
        .memory(0xfffc, 0x00)
        .memory(0xfffd, 0x04)
        .memory(0x0400, 0xa9)
        .memory(0x0401, 0x42)
        .memory(0x0402, 0xaa)
        .memory(0x0403, 0xea)
        .memory(0x0404, 0x4c)
        .memory(0x0405, 0x04)
        .memory(0x0406, 0x04)
        .prepare();
    Debugger::new(cpu, true)
}

#[test]
fn debugger_resets_without_the_clock() {
    let cpu = System::new().memory(0xfffc, 0x34).memory(0xfffd, 0x12).a(9).prepare();
    assert_eq!(cpu.cycles(), 2);
    let debugger = Debugger::new(cpu, true);
    assert!(debugger.cpu().is_debug());
    assert_eq!(debugger.cpu().cycles(), 2);
    assert_eq!(debugger.cpu().get_pc(), Addr(0x1234));
    assert_eq!(debugger.cpu().get_reg(Register::A), Either::Left(Byte(0)));
    let cpu = System::new().a(9).pc(0x0777).prepare();
    let debugger = Debugger::new(cpu, false);
    assert!(debugger.cpu().is_debug());
    assert_eq!(debugger.cpu().get_pc(), Addr(0x0777));
    assert_eq!(debugger.cpu().get_reg(Register::A), Either::Left(Byte(9)));
}

#[test]
fn step_and_repeat_with_an_empty_line() {
    let mut debugger = debugger();
    assert_eq!(debugger.submit(""), Ok(Reply::Done));
    assert_eq!(debugger.cpu().get_pc(), Addr(0x0400));
    assert_eq!(debugger.submit("step"), Ok(Reply::Done));
    assert_eq!(debugger.cpu().get_pc(), Addr(0x0402));
    assert_eq!(debugger.submit(""), Ok(Reply::Done));
    assert_eq!(debugger.cpu().get_pc(), Addr(0x0403));
    assert_eq!(debugger.submit("get reg x"), Ok(Reply::Value(Either::Left(Byte(0x42)))));
    assert_eq!(debugger.submit(""), Ok(Reply::Value(Either::Left(Byte(0x42)))));
    // a line that is no command does not replace the last command
    assert_eq!(debugger.submit("nonsense"), Err(ParseError::InvalidCommand));
    assert_eq!(debugger.submit(""), Ok(Reply::Value(Either::Left(Byte(0x42)))));
    assert_eq!(debugger.cpu().cycles(), 2);
}

#[test]
fn memory_and_registers_through_commands() {
    let mut debugger = debugger();
    assert_eq!(debugger.submit("set mem 0x0200 0x99"), Ok(Reply::Done));
    assert_eq!(debugger.submit("get mem 0x0200"), Ok(Reply::Memory(Byte(0x99))));
    assert_eq!(debugger.submit("set reg a 5"), Ok(Reply::Done));
    assert_eq!(debugger.submit("set reg ps 0xff"), Ok(Reply::Done));
    assert_eq!(debugger.submit("set reg pc 0x0402"), Ok(Reply::Done));
    assert_eq!(debugger.submit("set reg sp 0x01f0"), Ok(Reply::Done));
    assert_eq!(debugger.submit("get reg pc"), Ok(Reply::Value(Either::Right(Addr(0x0402)))));
    assert_eq!(
        debugger.submit("regs"),
        Ok(Reply::Registers {
            a: Byte(5),
            x: Byte(0),
            y: Byte(0),
            ps: Byte(0xef),
            sp: Byte(0xf0),
            pc: Addr(0x0402),
        })
    );
    assert_eq!(debugger.submit("help"), Ok(Reply::Help));
    assert_eq!(debugger.handle_cmd(Command::StoreReg(Register::PC, Byte(1))), Reply::Mismatch);
    assert_eq!(
        debugger.handle_cmd(Command::StoreRegLong(Register::A, Addr(1))),
        Reply::Mismatch
    );
    assert_eq!(debugger.cpu().get_reg(Register::A), Either::Left(Byte(5)));
}

#[test]
fn run_until_breakpoint_and_until_trap() {
    let mut debugger = debugger();
    assert_eq!(debugger.submit("break 0x0403"), Ok(Reply::Done));
    assert!(!debugger.is_running());
    assert!(!debugger.advance());
    assert_eq!(debugger.cpu().get_pc(), Addr(0x0400));
    assert_eq!(debugger.submit("run"), Ok(Reply::Done));
    assert!(debugger.is_running());
    assert!(debugger.advance());
    assert!(debugger.advance());
    assert_eq!(debugger.cpu().get_pc(), Addr(0x0403));
    // the breakpoint
    assert!(!debugger.advance());
    assert!(!debugger.is_running());
    assert_eq!(debugger.cpu().get_pc(), Addr(0x0403));
    assert_eq!(debugger.submit("run"), Ok(Reply::Done));
    assert!(debugger.advance());
    assert_eq!(debugger.cpu().get_pc(), Addr(0x0404));
    // JMP self traps
    assert!(!debugger.advance());
    assert!(debugger.cpu().is_trapped());
    assert_eq!(debugger.submit("run"), Ok(Reply::Done));
    assert!(!debugger.advance());
}

#[test]
fn reading_unmapped_memory_under_the_debugger() {
    let mut bus = Bus::new();
    bus.register(Peripheral::Ram(Memory::default())).unwrap();
    let mut debugger = Debugger::new(CPU::new(bus, Clock::new()), false);
    assert_eq!(debugger.submit("get mem 0x4000"), Ok(Reply::Unmapped(Addr(0x4000))));
    assert_eq!(debugger.cpu().fault(), None);
    assert_eq!(debugger.submit("set mem 0x4000 1"), Ok(Reply::Done));
    assert_eq!(debugger.submit("get mem 0x3fff"), Ok(Reply::Memory(Byte(0))));
}
