//! The debugger: its command language and what each command does to the
//! machine. Reading lines and showing replies is left to the host.

use vstd::prelude::*;
use vstd::string::StringSliceAdditionalSpecFns;
use either::Either;
use crate::hardware::cpu::lemmas::lemma_debug_step_keeps_control;
use crate::hardware::cpu::model::CpuModel;
use crate::hardware::cpu::Register;
use crate::hardware::cpu::CPU;
use crate::text::bytes_of;
use crate::text::is_key;
use crate::text::is_keyword;
use crate::text::is_name;
use crate::text::is_named;
use crate::types::low_byte;
use crate::types::Addr;
use crate::types::Byte;

verus! {

/// A command of the debugger.
#[derive(Clone, Copy, Debug, PartialEq, Eq, Structural)]
pub enum Command {
    /// `help`
    Help,
    /// `break <addr>`
    Break(Addr),
    /// `run`
    Run,
    /// `step`
    Step,
    /// `set mem <addr> <byte>`
    StoreMem(Addr, Byte),
    /// `set reg <A|X|Y|PS> <byte>`
    StoreReg(Register, Byte),
    /// `set reg <PC|SP> <word>`
    StoreRegLong(Register, Addr),
    /// `get mem <addr>`
    LoadMem(Addr),
    /// `get reg <A|X|Y|PS|PC|SP>`
    LoadReg(Register),
    /// An empty line.
    Nothing,
    /// `regs`
    ShowRegs,
}

/// Why a line is no command.
#[derive(Clone, Copy, Debug, PartialEq, Eq, Structural)]
pub enum ParseError {
    /// The words of the line fit no command.
    InvalidCommand,
    /// The word is not the name of a register.
    InvalidRegister,
    /// A number without digits.
    EmptyNumber,
    /// A number with something in it that is no digit of its radix.
    InvalidDigit,
    /// A number that does not fit into the byte or word that it is for.
    NumberTooLarge,
}

/// Whether the byte `b` is a white-space character of its own: a blank, or
/// one of the ASCII control characters from tab to carriage return.
pub open spec fn is_space(b: u8) -> bool {
    b == 0x20 || 0x09 <= b <= 0x0d
}

/// Whether the three bytes are the UTF-8 form of a white-space character:
/// U+1680, U+2000 to U+200A, U+2028, U+2029, U+202F, U+205F or U+3000.
pub open spec fn is_wide_space(a: u8, b: u8, c: u8) -> bool {
    ||| a == 0xe1 && b == 0x9a && c == 0x80
    ||| a == 0xe2 && b == 0x80 && (0x80 <= c <= 0x8a || c == 0xa8 || c == 0xa9 || c == 0xaf)
    ||| a == 0xe2 && b == 0x81 && c == 0x9f
    ||| a == 0xe3 && b == 0x80 && c == 0x80
}

/// The number of bytes of the white-space character that `line` begins
/// with, in UTF-8: one for the ASCII ones, two for U+0085 and U+00A0, three
/// for the others. Zero where `line` begins with none.
pub open spec fn space_len(line: Seq<u8>) -> nat {
    if line.len() >= 1 && is_space(line[0]) {
        1
    } else if line.len() >= 2 && line[0] == 0xc2 && (line[1] == 0x85 || line[1] == 0xa0) {
        2
    } else if line.len() >= 3 && is_wide_space(line[0], line[1], line[2]) {
        3
    } else {
        0
    }
}

/// The length of the word that `line` begins with: the number of bytes
/// before the first white-space character.
pub open spec fn word_len(line: Seq<u8>) -> nat
    decreases line.len(),
{
    if line.len() == 0 || space_len(line) > 0 {
        0
    } else {
        1 + word_len(line.drop_first())
    }
}

/// The words of `line`: its longest runs of bytes without a white-space
/// character, first to last.
pub open spec fn words(line: Seq<u8>) -> Seq<Seq<u8>>
    decreases line.len(),
{
    if line.len() == 0 {
        Seq::empty()
    } else if space_len(line) > 0 {
        words(line.skip(space_len(line) as int))
    } else {
        proof {
            lemma_word_len_bound(line);
        }
        seq![line.take(word_len(line) as int)] + words(line.skip(word_len(line) as int))
    }
}

/// A word is not longer than its line.
pub proof fn lemma_word_len_bound(line: Seq<u8>)
    ensures
        word_len(line) <= line.len(),
        line.len() > 0 && space_len(line) == 0 ==> word_len(line) > 0,
    decreases line.len(),
{
    if line.len() > 0 && space_len(line) == 0 {
        lemma_word_len_bound(line.drop_first());
    }
}

/// The value of the digit `b` in the given radix, if it is one: `0` to `9`,
/// `a` to `f` and `A` to `F` stand for 0 to 15, and a digit of a radix is
/// below it.
pub open spec fn digit_value(b: u8, radix: int) -> Option<int> {
    let v: int = if 0x30 <= b <= 0x39 {
        b - 0x30
    } else if 0x61 <= b <= 0x66 {
        b - 0x61 + 10
    } else if 0x41 <= b <= 0x46 {
        b - 0x41 + 10
    } else {
        radix
    };
    if v < radix {
        Some(v)
    } else {
        None
    }
}

/// The number up to `max` that the digits stand for in the given radix,
/// read from the left. The reading ends with an error at the first byte that
/// is no digit of the radix, or at the first digit with which the number
/// goes over `max`. No digits stand for zero.
pub open spec fn digits_value(digits: Seq<u8>, radix: int, max: int) -> Result<int, ParseError>
    decreases digits.len(),
{
    if digits.len() == 0 {
        Ok(0)
    } else {
        match digits_value(digits.drop_last(), radix, max) {
            Err(e) => Err(e),
            Ok(v) => match digit_value(digits.last(), radix) {
                None => Err(ParseError::InvalidDigit),
                Some(d) => if v * radix + d > max {
                    Err(ParseError::NumberTooLarge)
                } else {
                    Ok(v * radix + d)
                },
            },
        }
    }
}

/// The radix that the prefix of a literal names: 16 behind `0x`, 2 behind
/// `0b`, else 10.
pub open spec fn radix_of(word: Seq<u8>) -> int {
    if word.len() >= 2 && word[0] == 0x30 && word[1] == 0x78 {
        16
    } else if word.len() >= 2 && word[0] == 0x30 && word[1] == 0x62 {
        2
    } else {
        10
    }
}

/// The literal without the prefix that names its radix.
pub open spec fn body_of(word: Seq<u8>) -> Seq<u8> {
    if radix_of(word) == 10 {
        word
    } else {
        word.skip(2)
    }
}

/// The digits of a literal's body: the body without a leading `+`.
pub open spec fn unsigned_of(body: Seq<u8>) -> Seq<u8> {
    if body.len() > 0 && body[0] == 0x2b {
        body.skip(1)
    } else {
        body
    }
}

/// The number that the literal `word` stands for, if that is one up to
/// `max`: hexadecimal behind `0x`, binary behind `0b`, else decimal.
pub open spec fn number(word: Seq<u8>, max: int) -> Result<int, ParseError> {
    let body = body_of(word);
    let digits = unsigned_of(body);
    if body.len() == 0 {
        Err(ParseError::EmptyNumber)
    } else if digits.len() == 0 {
        Err(ParseError::InvalidDigit)
    } else {
        digits_value(digits, radix_of(word), max)
    }
}

/// The address that the literal `word` stands for.
pub open spec fn addr_of(word: Seq<u8>) -> Result<Addr, ParseError> {
    match number(word, 0xffff) {
        Ok(v) => Ok(Addr(v as u16)),
        Err(e) => Err(e),
    }
}

/// The byte that the literal `word` stands for.
pub open spec fn byte_of(word: Seq<u8>) -> Result<Byte, ParseError> {
    match number(word, 0xff) {
        Ok(v) => Ok(Byte(v as u8)),
        Err(e) => Err(e),
    }
}

/// The register that `word` names, in capitals or small letters.
pub open spec fn register_of(word: Seq<u8>) -> Result<Register, ParseError> {
    if is_name(word, "a") {
        Ok(Register::A)
    } else if is_name(word, "x") {
        Ok(Register::X)
    } else if is_name(word, "y") {
        Ok(Register::Y)
    } else if is_name(word, "ps") {
        Ok(Register::PS)
    } else if is_name(word, "pc") {
        Ok(Register::PC)
    } else if is_name(word, "sp") {
        Ok(Register::SP)
    } else {
        Err(ParseError::InvalidRegister)
    }
}

/// `break <addr>`
pub open spec fn break_of(addr: Seq<u8>) -> Result<Command, ParseError> {
    match addr_of(addr) {
        Ok(a) => Ok(Command::Break(a)),
        Err(e) => Err(e),
    }
}

/// `set mem <addr> <byte>`
pub open spec fn store_mem_of(addr: Seq<u8>, val: Seq<u8>) -> Result<Command, ParseError> {
    match addr_of(addr) {
        Ok(a) => match byte_of(val) {
            Ok(v) => Ok(Command::StoreMem(a, v)),
            Err(e) => Err(e),
        },
        Err(e) => Err(e),
    }
}

/// `set reg <reg> <val>`: PC and SP take a word, the others a byte.
pub open spec fn store_reg_of(reg: Seq<u8>, val: Seq<u8>) -> Result<Command, ParseError> {
    match register_of(reg) {
        Ok(r) => if r is PC || r is SP {
            match addr_of(val) {
                Ok(v) => Ok(Command::StoreRegLong(r, v)),
                Err(e) => Err(e),
            }
        } else {
            match byte_of(val) {
                Ok(v) => Ok(Command::StoreReg(r, v)),
                Err(e) => Err(e),
            }
        },
        Err(e) => Err(e),
    }
}

/// `get mem <addr>`
pub open spec fn load_mem_of(addr: Seq<u8>) -> Result<Command, ParseError> {
    match addr_of(addr) {
        Ok(a) => Ok(Command::LoadMem(a)),
        Err(e) => Err(e),
    }
}

/// `get reg <reg>`
pub open spec fn load_reg_of(reg: Seq<u8>) -> Result<Command, ParseError> {
    match register_of(reg) {
        Ok(r) => Ok(Command::LoadReg(r)),
        Err(e) => Err(e),
    }
}

/// The command that the words `w` make.
pub open spec fn command_of(w: Seq<Seq<u8>>) -> Result<Command, ParseError> {
    if w.len() == 0 {
        Ok(Command::Nothing)
    } else if w.len() == 1 && is_key(w[0], "help") {
        Ok(Command::Help)
    } else if w.len() == 2 && (is_key(w[0], "break") || is_key(w[0], "b")) {
        break_of(w[1])
    } else if w.len() == 1 && (is_key(w[0], "run") || is_key(w[0], "r")) {
        Ok(Command::Run)
    } else if w.len() == 1 && (is_key(w[0], "step") || is_key(w[0], "s")) {
        Ok(Command::Step)
    } else if w.len() == 4 && is_key(w[0], "set") && is_key(w[1], "mem") {
        store_mem_of(w[2], w[3])
    } else if w.len() == 4 && is_key(w[0], "set") && is_key(w[1], "reg") {
        store_reg_of(w[2], w[3])
    } else if w.len() == 3 && is_key(w[0], "get") && is_key(w[1], "mem") {
        load_mem_of(w[2])
    } else if w.len() == 3 && is_key(w[0], "get") && is_key(w[1], "reg") {
        load_reg_of(w[2])
    } else if w.len() == 1 && is_key(w[0], "regs") {
        Ok(Command::ShowRegs)
    } else {
        Err(ParseError::InvalidCommand)
    }
}

/// The command that the bytes of a line stand for.
pub open spec fn parse_command(line: Seq<u8>) -> Result<Command, ParseError> {
    command_of(words(line))
}

/// The words as sequences of bytes.
pub open spec fn views(tokens: Seq<Vec<u8>>) -> Seq<Seq<u8>> {
    Seq::new(tokens.len(), |i: int| tokens[i]@)
}

/// The number of bytes of the white-space character at `at`, zero where
/// there is none.
fn space_at(line: &[u8], at: usize) -> (n: usize)
    requires
        at < line.len(),
    ensures
        n == space_len(line@.skip(at as int)),
        at + n <= line.len(),
{
    let ghost rest = line@.skip(at as int);
    assert(rest.len() == line.len() - at);
    assert(rest[0] == line@[at as int]);
    let a: u8 = line[at];
    if a == 0x20 || (0x09 <= a && a <= 0x0d) {
        return 1;
    }
    if line.len() - at >= 2 {
        assert(rest[1] == line@[at + 1]);
        let b: u8 = line[at + 1];
        if a == 0xc2 && (b == 0x85 || b == 0xa0) {
            return 2;
        }
        if line.len() - at >= 3 {
            assert(rest[2] == line@[at + 2]);
            let c: u8 = line[at + 2];
            if (a == 0xe1 && b == 0x9a && c == 0x80) || (a == 0xe2 && b == 0x80 && ((0x80 <= c
                && c <= 0x8a) || c == 0xa8 || c == 0xa9 || c == 0xaf)) || (a == 0xe2 && b == 0x81
                && c == 0x9f) || (a == 0xe3 && b == 0x80 && c == 0x80) {
                return 3;
            }
        }
    }
    0
}

/// Splits a line into its words.
pub fn split_words(line: &[u8]) -> (tokens: Vec<Vec<u8>>)
    ensures
        views(tokens@) == words(line@),
{
    let mut tokens: Vec<Vec<u8>> = Vec::new();
    let mut i: usize = 0;
    assert(line@.skip(0) =~= line@);
    assert(views(tokens@) =~= Seq::<Seq<u8>>::empty());
    while i < line.len()
        invariant
            i <= line.len(),
            words(line@) == views(tokens@) + words(line@.skip(i as int)),
        decreases line.len() - i,
    {
        let ghost rest = line@.skip(i as int);
        let n = space_at(line, i);
        if n > 0 {
            assert(rest.skip(n as int) =~= line@.skip(i + n));
            i = i + n;
        } else {
            let start: usize = i;
            let mut token: Vec<u8> = Vec::new();
            assert(line@.subrange(start as int, i as int) =~= Seq::<u8>::empty());
            while i < line.len() && space_at(line, i) == 0
                invariant
                    start <= i <= line.len(),
                    rest == line@.skip(start as int),
                    token@ == line@.subrange(start as int, i as int),
                    word_len(rest) == (i - start) + word_len(line@.skip(i as int)),
                decreases line.len() - i,
            {
                assert(line@.skip(i as int).drop_first() =~= line@.skip(i + 1));
                token.push(line[i]);
                assert(token@ =~= line@.subrange(start as int, i + 1));
                i = i + 1;
            }
            proof {
                let len = word_len(rest);
                assert(len == i - start);
                assert(rest.take(len as int) =~= token@);
                assert(rest.skip(len as int) =~= line@.skip(i as int));
                assert(views(tokens@.push(token)) =~= views(tokens@) + seq![token@]);
            }
            tokens.push(token);
        }
    }
    assert(line@.skip(i as int).len() == 0);
    assert(views(tokens@) + Seq::<Seq<u8>>::empty() =~= views(tokens@));
    tokens
}

/// The value of a digit in the given radix.
fn digit(b: u8, radix: u32) -> (d: Option<u32>)
    requires
        2 <= radix <= 16,
    ensures
        match digit_value(b, radix as int) {
            Some(v) => d == Some(v as u32),
            None => d is None,
        },
{
    let v: u32 = if 0x30 <= b && b <= 0x39 {
        (b - 0x30) as u32
    } else if 0x61 <= b && b <= 0x66 {
        (b - 0x61) as u32 + 10
    } else if 0x41 <= b && b <= 0x46 {
        (b - 0x41) as u32 + 10
    } else {
        radix
    };
    if v < radix {
        Some(v)
    } else {
        None
    }
}

/// Reads the literal `word` as a number up to `max`.
fn parse_number(word: &Vec<u8>, max: u32) -> (r: Result<u32, ParseError>)
    requires
        max <= 0xffff,
    ensures
        match number(word@, max as int) {
            Ok(v) => 0 <= v <= max && r == Ok::<u32, ParseError>(v as u32),
            Err(e) => r == Err::<u32, ParseError>(e),
        },
{
    let hex = word.len() >= 2 && word[0] == 0x30 && word[1] == 0x78;
    let bin = word.len() >= 2 && word[0] == 0x30 && word[1] == 0x62;
    let radix: u32 = if hex {
        16
    } else if bin {
        2
    } else {
        10
    };
    let from: usize = if hex || bin {
        2
    } else {
        0
    };
    let ghost body = body_of(word@);
    assert(body =~= word@.skip(from as int));
    if from == word.len() {
        return Err(ParseError::EmptyNumber);
    }
    let first: usize = if word[from] == 0x2b {
        from + 1
    } else {
        from
    };
    let ghost digits = unsigned_of(body);
    assert(digits =~= word@.skip(first as int));
    if first == word.len() {
        return Err(ParseError::InvalidDigit);
    }
    let mut value: u32 = 0;
    let mut i: usize = first;
    assert(digits.take(0) =~= Seq::<u8>::empty());
    while i < word.len()
        invariant
            first <= i <= word.len(),
            2 <= radix <= 16,
            max <= 0xffff,
            radix == radix_of(word@),
            body == body_of(word@),
            digits == unsigned_of(body),
            digits == word@.skip(first as int),
            body.len() > 0,
            digits.len() > 0,
            digits_value(digits.take(i - first), radix as int, max as int) == Ok::<
                int,
                ParseError,
            >(value as int),
            value <= max,
        decreases word.len() - i,
    {
        let ghost now = digits.take(i - first + 1);
        assert(now.drop_last() =~= digits.take(i - first));
        assert(now.last() == word@[i as int]);
        match digit(word[i], radix) {
            None => {
                proof {
                    lemma_error_stays(digits, i - first + 1, radix as int, max as int);
                }
                return Err(ParseError::InvalidDigit);
            },
            Some(d) => {
                assert(value * radix + d <= 0xffff * 16 + 15) by (nonlinear_arith)
                    requires
                        value <= 0xffff,
                        radix <= 16,
                        d < 16,
                ;
                let next: u32 = value * radix + d;
                if next > max {
                    proof {
                        lemma_error_stays(digits, i - first + 1, radix as int, max as int);
                    }
                    return Err(ParseError::NumberTooLarge);
                }
                value = next;
            },
        }
        i = i + 1;
    }
    assert(digits.take(i - first) =~= digits);
    Ok(value)
}

/// An error in the reading of the first `n` digits is the error of the
/// whole reading.
proof fn lemma_error_stays(digits: Seq<u8>, n: int, radix: int, max: int)
    requires
        0 <= n <= digits.len(),
        digits_value(digits.take(n), radix, max) is Err,
    ensures
        digits_value(digits, radix, max) == digits_value(digits.take(n), radix, max),
    decreases digits.len() - n,
{
    if n == digits.len() {
        assert(digits.take(n) =~= digits);
    } else {
        assert(digits.take(n + 1).drop_last() =~= digits.take(n));
        lemma_error_stays(digits, n + 1, radix, max);
    }
}

impl Addr {
    /// Reads an address: hexadecimal behind `0x`, binary behind `0b`, else
    /// decimal.
    pub fn try_from(value: &str) -> (r: Result<Addr, ParseError>)
        ensures
            r == addr_of(value.spec_bytes()),
    {
        let word = bytes_of(value);
        parse_addr(&word)
    }
}

impl Byte {
    /// Reads a byte: hexadecimal behind `0x`, binary behind `0b`, else
    /// decimal.
    pub fn try_from(value: &str) -> (r: Result<Byte, ParseError>)
        ensures
            r == byte_of(value.spec_bytes()),
    {
        let word = bytes_of(value);
        parse_byte(&word)
    }
}

impl Register {
    /// Reads the name of a register, in capitals or small letters.
    pub fn try_from(value: &str) -> (r: Result<Register, ParseError>)
        ensures
            r == register_of(value.spec_bytes()),
    {
        let word = bytes_of(value);
        parse_register(&word)
    }
}

/// Reads the literal `word` as an address.
fn parse_addr(word: &Vec<u8>) -> (r: Result<Addr, ParseError>)
    ensures
        r == addr_of(word@),
{
    match parse_number(word, 0xffff) {
        Ok(v) => Ok(Addr(v as u16)),
        Err(e) => Err(e),
    }
}

/// Reads the literal `word` as a byte.
fn parse_byte(word: &Vec<u8>) -> (r: Result<Byte, ParseError>)
    ensures
        r == byte_of(word@),
{
    match parse_number(word, 0xff) {
        Ok(v) => Ok(Byte(v as u8)),
        Err(e) => Err(e),
    }
}

/// Reads the name of a register.
fn parse_register(word: &Vec<u8>) -> (r: Result<Register, ParseError>)
    ensures
        r == register_of(word@),
{
    if is_named(word, "a") {
        Ok(Register::A)
    } else if is_named(word, "x") {
        Ok(Register::X)
    } else if is_named(word, "y") {
        Ok(Register::Y)
    } else if is_named(word, "ps") {
        Ok(Register::PS)
    } else if is_named(word, "pc") {
        Ok(Register::PC)
    } else if is_named(word, "sp") {
        Ok(Register::SP)
    } else {
        Err(ParseError::InvalidRegister)
    }
}

/// Reads `set reg <reg> <val>`.
fn parse_store_reg(reg: &Vec<u8>, val: &Vec<u8>) -> (r: Result<Command, ParseError>)
    ensures
        r == store_reg_of(reg@, val@),
{
    match parse_register(reg) {
        Ok(register) => match register {
            Register::PC | Register::SP => match parse_addr(val) {
                Ok(v) => Ok(Command::StoreRegLong(register, v)),
                Err(e) => Err(e),
            },
            _ => match parse_byte(val) {
                Ok(v) => Ok(Command::StoreReg(register, v)),
                Err(e) => Err(e),
            },
        },
        Err(e) => Err(e),
    }
}

/// Reads `set mem <addr> <val>`.
fn parse_store_mem(addr: &Vec<u8>, val: &Vec<u8>) -> (r: Result<Command, ParseError>)
    ensures
        r == store_mem_of(addr@, val@),
{
    match parse_addr(addr) {
        Ok(a) => match parse_byte(val) {
            Ok(v) => Ok(Command::StoreMem(a, v)),
            Err(e) => Err(e),
        },
        Err(e) => Err(e),
    }
}

impl Command {
    /// Reads a line as a command. An empty line is `Command::Nothing`.
    pub fn parse_line(line: &str) -> (r: Result<Command, ParseError>)
        ensures
            r == parse_command(line.spec_bytes()),
    {
        let w = split_words(line.as_bytes());
        let ghost v = views(w@);
        let n = w.len();
        if n == 0 {
            Ok(Command::Nothing)
        } else if n == 1 && is_keyword(&w[0], "help") {
            Ok(Command::Help)
        } else if n == 2 && (is_keyword(&w[0], "break") || is_keyword(&w[0], "b")) {
            match parse_addr(&w[1]) {
                Ok(a) => Ok(Command::Break(a)),
                Err(e) => Err(e),
            }
        } else if n == 1 && (is_keyword(&w[0], "run") || is_keyword(&w[0], "r")) {
            Ok(Command::Run)
        } else if n == 1 && (is_keyword(&w[0], "step") || is_keyword(&w[0], "s")) {
            Ok(Command::Step)
        } else if n == 4 && is_keyword(&w[0], "set") && is_keyword(&w[1], "mem") {
            parse_store_mem(&w[2], &w[3])
        } else if n == 4 && is_keyword(&w[0], "set") && is_keyword(&w[1], "reg") {
            parse_store_reg(&w[2], &w[3])
        } else if n == 3 && is_keyword(&w[0], "get") && is_keyword(&w[1], "mem") {
            match parse_addr(&w[2]) {
                Ok(a) => Ok(Command::LoadMem(a)),
                Err(e) => Err(e),
            }
        } else if n == 3 && is_keyword(&w[0], "get") && is_keyword(&w[1], "reg") {
            match parse_register(&w[2]) {
                Ok(r) => Ok(Command::LoadReg(r)),
                Err(e) => Err(e),
            }
        } else if n == 1 && is_keyword(&w[0], "regs") {
            Ok(Command::ShowRegs)
        } else {
            Err(ParseError::InvalidCommand)
        }
    }
}

/// What the debugger has to show after a command.
#[derive(Clone, Copy, Debug, PartialEq, Eq)]
pub enum Reply {
    /// Nothing.
    Done,
    /// The help text.
    Help,
    /// The byte that was read from memory.
    Memory(Byte),
    /// No device owns the address that was to be read.
    Unmapped(Addr),
    /// The value of the register that was asked for.
    Value(Either<Byte, Addr>),
    /// All registers.
    Registers { a: Byte, x: Byte, y: Byte, ps: Byte, sp: Byte, pc: Addr },
    /// The register cannot hold a value of the kind that was given.
    Mismatch,
}

/// The help text.
pub const USAGE: &'static str =
    "
    help                    Print this message
    break <addr>            Set a breakpoint at address <addr>
    run                     Resume execution
    step                    Step through one instruction
    set mem <addr> <val>    Store <val> at address <addr>
    set reg <reg> <val>     Store <val> into register <reg> (A(u8), X(u8), Y(u8), PS(u8), PC(u16), SP(u8))
    get mem <addr>          Load <val> from address <addr>
    get reg <reg>           Load <val> from register <reg> (A, X, Y, PS, PC, SP)
    regs                    Show all registers
";

/// The state of a debugger: the machine under it, the last command, and
/// whether the machine runs freely.
pub struct DebuggerModel {
    pub cpu: CpuModel,
    pub cmd: Option<Command>,
    pub running: bool,
}

impl DebuggerModel {
    /// The machine is well formed and in debug mode.
    pub open spec fn wf(self) -> bool {
        self.cpu.wf() && self.cpu.debug
    }

    /// The debugger with `cpu` as its machine.
    pub open spec fn with_cpu(self, cpu: CpuModel) -> DebuggerModel {
        DebuggerModel { cpu, ..self }
    }

    /// All registers of the machine.
    pub open spec fn registers(self) -> Reply {
        Reply::Registers {
            a: Byte(self.cpu.a),
            x: Byte(self.cpu.x),
            y: Byte(self.cpu.y),
            ps: Byte(crate::hardware::cpu::model::observed(self.cpu.ps)),
            sp: Byte(self.cpu.sp),
            pc: Addr(self.cpu.pc),
        }
    }

    /// What `cmd` has the debugger show, and the debugger after it.
    ///
    /// A word for SP sets it to the word's low byte. A value of the wrong
    /// kind for its register changes nothing.
    pub open spec fn handle(self, cmd: Command) -> (Reply, DebuggerModel) {
        match cmd {
            Command::Break(addr) => (
                Reply::Done,
                self.with_cpu(
                    CpuModel { breakpoints: self.cpu.breakpoints.insert(addr.0), ..self.cpu },
                ),
            ),
            Command::Run => (Reply::Done, DebuggerModel { running: true, ..self }),
            Command::Step => (Reply::Done, self.with_cpu(self.cpu.debug_step())),
            Command::StoreMem(addr, val) => (
                Reply::Done,
                self.with_cpu(self.cpu.write(addr.0, val.0)),
            ),
            Command::StoreReg(reg, val) => if reg is PC {
                (Reply::Mismatch, self)
            } else {
                (Reply::Done, self.with_cpu(self.cpu.with_reg(reg, Either::Left(val))))
            },
            Command::StoreRegLong(reg, val) => match reg {
                Register::PC => (
                    Reply::Done,
                    self.with_cpu(self.cpu.with_reg(reg, Either::Right(val))),
                ),
                Register::SP => (
                    Reply::Done,
                    self.with_cpu(self.cpu.with_reg(reg, Either::Left(Byte(low_byte(val.0))))),
                ),
                _ => (Reply::Mismatch, self),
            },
            Command::LoadMem(addr) => if self.cpu.bus.mapped(addr.0) {
                (
                    Reply::Memory(Byte(self.cpu.bus.read(addr.0))),
                    self.with_cpu(CpuModel { bus: self.cpu.bus.after_read(addr.0), ..self.cpu }),
                )
            } else {
                (Reply::Unmapped(addr), self)
            },
            Command::LoadReg(reg) => (Reply::Value(self.cpu.reg(reg)), self),
            Command::Help => (Reply::Help, self),
            Command::ShowRegs => (self.registers(), self),
            Command::Nothing => (Reply::Done, self),
        }
    }

    /// What a line has the debugger show, and the debugger after it. A line
    /// that is no command changes nothing. An empty line repeats the last
    /// command; every other command is kept as the last one.
    pub open spec fn submit(self, line: Seq<u8>) -> (Result<Reply, ParseError>, DebuggerModel) {
        match parse_command(line) {
            Err(e) => (Err(e), self),
            Ok(Command::Nothing) => match self.cmd {
                Some(last) => (Ok(self.handle(last).0), self.handle(last).1),
                None => (Ok(Reply::Done), self),
            },
            Ok(cmd) => (
                Ok(self.handle(cmd).0),
                DebuggerModel { cmd: Some(cmd), ..self.handle(cmd).1 },
            ),
        }
    }

    /// The debugger after one step of a machine that runs freely: the
    /// machine steps, and it stops running freely where that step hits a
    /// breakpoint or the CPU has stopped.
    pub open spec fn advance(self) -> DebuggerModel {
        if self.running {
            DebuggerModel {
                cpu: self.cpu.debug_step(),
                running: !self.cpu.debug_step().halted() && !self.cpu.debug_step().breaked,
                ..self
            }
        } else {
            self
        }
    }
}

/// The debugger: a machine in debug mode and the last command given.
pub struct Debugger {
    cpu: CPU,
    cmd: Option<Command>,
    running: bool,
}

impl View for Debugger {
    type V = DebuggerModel;

    closed spec fn view(&self) -> DebuggerModel {
        DebuggerModel { cpu: self.cpu@, cmd: self.cmd, running: self.running }
    }
}

impl Debugger {
    /// A debugger for `cpu`, which is put into debug mode and, if `reset`
    /// says so, reset.
    pub fn new(cpu: CPU, reset: bool) -> (debugger: Debugger)
        requires
            cpu@.wf(),
        ensures
            debugger@ == (DebuggerModel {
                cpu: if reset {
                    (CpuModel { debug: true, ..cpu@ }).after_reset()
                } else {
                    CpuModel { debug: true, ..cpu@ }
                },
                cmd: None,
                running: false,
            }),
            debugger@.wf(),
    {
        let mut cpu = cpu;
        cpu.debug();
        if reset {
            cpu.reset();
        }
        Debugger { cpu, cmd: None, running: false }
    }

    /// Whether the machine runs freely.
    pub fn is_running(&self) -> (running: bool)
        ensures
            running == self@.running,
    {
        self.running
    }

    /// The machine under the debugger.
    pub fn cpu(&self) -> (cpu: &CPU)
        ensures
            cpu@ == self@.cpu,
    {
        &self.cpu
    }

    /// Carries out `cmd` and says what there is to show.
    pub fn handle_cmd(&mut self, cmd: Command) -> (reply: Reply)
        requires
            old(self)@.wf(),
        ensures
            (reply, final(self)@) == old(self)@.handle(cmd),
            final(self)@.wf(),
    {
        match cmd {
            Command::Break(addr) => {
                self.cpu.breakpoint(addr);
                Reply::Done
            },
            Command::Run => {
                self.running = true;
                Reply::Done
            },
            Command::Step => {
                proof {
                    lemma_debug_step_keeps_control(self.cpu@);
                }
                self.cpu.debug_exec();
                Reply::Done
            },
            Command::StoreMem(addr, val) => {
                self.cpu.write(addr, val);
                Reply::Done
            },
            Command::StoreReg(reg, val) => match reg {
                Register::PC => Reply::Mismatch,
                _ => {
                    self.cpu.set_reg(reg, Either::Left(val));
                    Reply::Done
                },
            },
            Command::StoreRegLong(reg, val) => match reg {
                Register::PC => {
                    self.cpu.set_reg(reg, Either::Right(val));
                    Reply::Done
                },
                Register::SP => {
                    self.cpu.set_reg(reg, Either::Left(val.low()));
                    Reply::Done
                },
                _ => Reply::Mismatch,
            },
            Command::LoadMem(addr) => match self.cpu.inspect(addr) {
                Some(val) => Reply::Memory(val),
                None => Reply::Unmapped(addr),
            },
            Command::LoadReg(reg) => Reply::Value(self.cpu.get_reg(reg)),
            Command::Help => Reply::Help,
            Command::ShowRegs => self.registers(),
            Command::Nothing => Reply::Done,
        }
    }

    /// All registers of the machine.
    fn registers(&self) -> (reply: Reply)
        ensures
            reply == self@.registers(),
    {
        Reply::Registers {
            a: self.cpu.a,
            x: self.cpu.x,
            y: self.cpu.y,
            ps: Byte(self.cpu.ps.0 | 0x20),
            sp: self.cpu.sp,
            pc: self.cpu.pc,
        }
    }

    /// Hands out what the machine wrote to the display since the last
    /// call, for the host to show.
    pub fn take_output(&mut self) -> (bytes: Vec<u8>)
        requires
            old(self)@.wf(),
        ensures
            bytes@ == old(self)@.cpu.bus.output(),
            final(self)@ == old(self)@.with_cpu(
                CpuModel { bus: old(self)@.cpu.bus.after_output(), ..old(self)@.cpu },
            ),
            final(self)@.wf(),
    {
        self.cpu.take_output()
    }

    /// The host reports a key. The result says whether a keyboard on the
    /// bus took it.
    pub fn key_press(&mut self, scancode: u8) -> (taken: bool)
        requires
            old(self)@.wf(),
        ensures
            taken == old(self)@.cpu.bus.has_keyboard(),
            final(self)@ == old(self)@.with_cpu(
                CpuModel { bus: old(self)@.cpu.bus.after_key(scancode), ..old(self)@.cpu },
            ),
            final(self)@.wf(),
    {
        self.cpu.key_press(scancode)
    }

    /// Reads `line` as a command and carries it out. An empty line repeats
    /// the last command.
    pub fn submit(&mut self, line: &str) -> (reply: Result<Reply, ParseError>)
        requires
            old(self)@.wf(),
        ensures
            (reply, final(self)@) == old(self)@.submit(line.spec_bytes()),
            final(self)@.wf(),
    {
        match Command::parse_line(line) {
            Err(e) => Err(e),
            Ok(cmd) => match cmd {
                Command::Nothing => match self.cmd {
                    Some(last) => Ok(self.handle_cmd(last)),
                    None => Ok(Reply::Done),
                },
                _ => {
                    let reply = self.handle_cmd(cmd);
                    self.cmd = Some(cmd);
                    Ok(reply)
                },
            },
        }
    }

    /// Lets a machine that runs freely do one step. The result says
    /// whether it still runs freely.
    pub fn advance(&mut self) -> (running: bool)
        requires
            old(self)@.wf(),
        ensures
            final(self)@ == old(self)@.advance(),
            final(self)@.wf(),
            running == final(self)@.running,
    {
        if self.running {
            proof {
                lemma_debug_step_keeps_control(self.cpu@);
            }
            if !self.cpu.debug_exec() {
                self.running = false;
            }
        }
        self.running
    }
}

} // verus!
