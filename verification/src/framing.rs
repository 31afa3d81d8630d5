//! How many lines a logical code occupies, read off its first address word.

use vstd::prelude::*;

verus! {

/// The address with which a keyed stream asks for a change of keying.
pub const REKEY_REQUEST: u32 = 0xFFFF_FFFF;

/// The opcode of a code: the top four bits of its address word.
pub open spec fn opcode(addr: u32) -> u32 {
    addr >> 28
}

/// The number of lines of the logical code whose first address word is `addr`.
///
/// Opcodes 4, 5 and 6 take two lines. Opcode 3 takes two lines when bit 22 of
/// the address is set. Everything else takes one line.
pub open spec fn line_count(addr: u32) -> nat {
    if 4 <= opcode(addr) <= 6 || (opcode(addr) == 3 && addr & 0x0040_0000 != 0) {
        2
    } else {
        1
    }
}

/// Whether a first address word shows the legacy cipher: any of bits 25 to 27
/// set.
pub open spec fn shows_cipher(addr: u32) -> bool {
    (addr >> 24) & 0x0e != 0
}

/// Computes the number of lines of the logical code that starts with `addr`.
pub fn num_code_lines(addr: u32) -> (lines: usize)
    ensures
        lines == line_count(addr),
        lines == 1 || lines == 2,
{
    let cmd: u32 = addr >> 28;

    if cmd < 3 || cmd > 6 {
        1
    } else if cmd == 3 {
        if addr & 0x0040_0000 != 0 {
            2
        } else {
            1
        }
    } else {
        2
    }
}

/// A request for a change of keying takes one line.
pub proof fn rekey_request_takes_one_line()
    ensures
        line_count(REKEY_REQUEST) == 1,
{
    assert(0xFFFF_FFFFu32 >> 28 == 15) by (bit_vector);
}

/// The line count is read off the opcode and bit 22 and nothing else: clearing
/// every other bit of the address leaves it unchanged.
pub proof fn line_count_reads_opcode_and_flag(addr: u32)
    ensures
        line_count(addr) == line_count(addr & 0xF040_0000),
        line_count(addr) == 1 || line_count(addr) == 2,
{
    let kept: u32 = addr & 0xF040_0000;
    assert(kept >> 28 == addr >> 28) by (bit_vector)
        requires
            kept == addr & 0xF040_0000,
    ;
    assert(kept & 0x0040_0000 == addr & 0x0040_0000) by (bit_vector)
        requires
            kept == addr & 0xF040_0000,
    ;
}

/// Unless the opcode is 3, the line count is read off the opcode alone.
pub proof fn line_count_reads_opcode(addr: u32)
    requires
        opcode(addr) != 3,
    ensures
        line_count(addr) == line_count(addr & 0xF000_0000),
{
    let kept: u32 = addr & 0xF000_0000;
    assert(kept >> 28 == addr >> 28) by (bit_vector)
        requires
            kept == addr & 0xF000_0000,
    ;
}

/// Two addresses with the same opcode, and with the same bit 22 where the
/// opcode is 3, have the same line count.
pub proof fn line_count_agrees(a: u32, b: u32)
    requires
        opcode(a) == opcode(b),
        opcode(a) == 3 ==> a & 0x0040_0000 == b & 0x0040_0000,
    ensures
        line_count(a) == line_count(b),
{
}

} // verus!
