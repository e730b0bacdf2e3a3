//! A textual hex dump of the loaded program.

use crate::cpu::CPU;
use crate::semantics::{MachineState, MEMORY_SIZE, ROM_START_ADDR};
use vstd::prelude::*;
use vstd::string::StringExecFns;

verus! {

/// `String::push` appends the given character to the end of the string.
pub assume_specification[ String::push ](s: &mut String, ch: char)
    ensures
        final(s)@ == old(s)@.push(ch),
;

/// The lower-case hexadecimal digit for a value below 16.
pub open spec fn hex_digit(d: int) -> char {
    if d == 0 {
        '0'
    } else if d == 1 {
        '1'
    } else if d == 2 {
        '2'
    } else if d == 3 {
        '3'
    } else if d == 4 {
        '4'
    } else if d == 5 {
        '5'
    } else if d == 6 {
        '6'
    } else if d == 7 {
        '7'
    } else if d == 8 {
        '8'
    } else if d == 9 {
        '9'
    } else if d == 10 {
        'a'
    } else if d == 11 {
        'b'
    } else if d == 12 {
        'c'
    } else if d == 13 {
        'd'
    } else if d == 14 {
        'e'
    } else {
        'f'
    }
}

/// A byte as two hexadecimal digits.
pub open spec fn hex_byte(byte: u8) -> Seq<char> {
    seq![hex_digit(byte as int / 16), hex_digit(byte as int % 16)]
}

/// An address as `0x` and four hexadecimal digits.
pub open spec fn hex_address(address: int) -> Seq<char> {
    seq![
        '0',
        'x',
        hex_digit((address / 0x1000) % 16),
        hex_digit((address / 0x100) % 16),
        hex_digit((address / 0x10) % 16),
        hex_digit(address % 16),
    ]
}

/// The text for the byte at `address`: a byte at a multiple of 16 starts a
/// new line with its address; bytes are grouped in pairs, with a blank
/// after every odd address.
pub open spec fn dump_entry(address: int, byte: u8) -> Seq<char> {
    if address % 16 == 0 {
        seq!['\n'] + hex_address(address) + seq![' ', ':', ':', ' '] + hex_byte(byte)
    } else if address % 2 == 0 {
        hex_byte(byte)
    } else {
        hex_byte(byte) + seq![' ']
    }
}

/// The text for the bytes at the addresses from `from` up to, not
/// including, `to`.
pub open spec fn dump_entries(memory: Seq<u8>, from: int, to: int) -> Seq<char>
    decreases to - from,
{
    if from >= to {
        Seq::empty()
    } else {
        dump_entries(memory, from, to - 1) + dump_entry(to - 1, memory[to - 1])
    }
}

/// The address behind the last dumped byte: the dump covers the loaded
/// program, from the program origin on, and nothing behind it.
pub open spec fn dump_end(rom_len: int) -> int {
    ROM_START_ADDR + rom_len
}

/// The dump of the loaded program: a title, one entry for each byte of the
/// program, and a closing line feed.
pub open spec fn dump_text(s: MachineState) -> Seq<char> {
    "---- CHIP-8 MEMORY ----"@ + dump_entries(
        s.memory,
        ROM_START_ADDR as int,
        dump_end(s.rom_len as int),
    ) + seq!['\n']
}

fn hex_digit_char(d: u8) -> (c: char)
    requires
        d < 16,
    ensures
        c == hex_digit(d as int),
{
    if d == 0 {
        '0'
    } else if d == 1 {
        '1'
    } else if d == 2 {
        '2'
    } else if d == 3 {
        '3'
    } else if d == 4 {
        '4'
    } else if d == 5 {
        '5'
    } else if d == 6 {
        '6'
    } else if d == 7 {
        '7'
    } else if d == 8 {
        '8'
    } else if d == 9 {
        '9'
    } else if d == 10 {
        'a'
    } else if d == 11 {
        'b'
    } else if d == 12 {
        'c'
    } else if d == 13 {
        'd'
    } else if d == 14 {
        'e'
    } else {
        'f'
    }
}

fn push_hex_byte(text: &mut String, byte: u8)
    ensures
        final(text)@ == old(text)@ + hex_byte(byte),
{
    text.push(hex_digit_char(byte / 16));
    text.push(hex_digit_char(byte % 16));
    assert(text@ =~= old(text)@ + hex_byte(byte));
}

fn push_hex_address(text: &mut String, address: usize)
    requires
        address < MEMORY_SIZE,
    ensures
        final(text)@ == old(text)@ + hex_address(address as int),
{
    text.push('0');
    text.push('x');
    text.push(hex_digit_char(((address / 0x1000) % 16) as u8));
    text.push(hex_digit_char(((address / 0x100) % 16) as u8));
    text.push(hex_digit_char(((address / 0x10) % 16) as u8));
    text.push(hex_digit_char((address % 16) as u8));
    assert(text@ =~= old(text)@ + hex_address(address as int));
}

fn push_dump_entry(text: &mut String, address: usize, byte: u8)
    requires
        address < MEMORY_SIZE,
    ensures
        final(text)@ == old(text)@ + dump_entry(address as int, byte),
{
    if address % 16 == 0 {
        text.push('\n');
        push_hex_address(text, address);
        text.push(' ');
        text.push(':');
        text.push(':');
        text.push(' ');
        push_hex_byte(text, byte);
    } else if address % 2 == 0 {
        push_hex_byte(text, byte);
    } else {
        push_hex_byte(text, byte);
        text.push(' ');
    }
    assert(text@ =~= old(text)@ + dump_entry(address as int, byte));
}

impl CPU {
    /// A hex dump of the loaded program: its bytes as they stand in memory,
    /// sixteen to a line, each line led by its address.
    pub fn dump_memory(&self) -> (text: String)
        requires
            self.wf(),
        ensures
            text@ == dump_text(self@),
    {
        let mut memory_dump: String = String::from_str("---- CHIP-8 MEMORY ----");
        let end: usize = ROM_START_ADDR + self.rom_len;
        let mut idx: usize = ROM_START_ADDR;
        while idx < end
            invariant
                ROM_START_ADDR <= idx <= end <= MEMORY_SIZE,
                memory_dump@ == "---- CHIP-8 MEMORY ----"@ + dump_entries(
                    self.memory@,
                    ROM_START_ADDR as int,
                    idx as int,
                ),
            decreases end - idx,
        {
            push_dump_entry(&mut memory_dump, idx, self.memory[idx]);
            idx += 1;
            assert(memory_dump@ =~= "---- CHIP-8 MEMORY ----"@ + dump_entries(
                self.memory@,
                ROM_START_ADDR as int,
                idx as int,
            ));
        }
        memory_dump.push('\n');
        assert(memory_dump@ =~= dump_text(self@));
        memory_dump
    }
}

} // verus!
