//! "Start with the OS" support: the command registered under the per-user
//! Run key and the UTF-16 form the registry takes.

use vstd::prelude::*;
use crate::text::chars_of;

verus! {

/// Registry value name under the Run key (the name shown in Task Manager).
pub const RUN_VALUE_NAME: &'static str = "GSB Connect";

/// Subkey path of the per-user Run key.
pub const RUN_SUBKEY: &'static str = "Software\\Microsoft\\Windows\\CurrentVersion\\Run";

/// Command-line flag that marks a boot-time launch (it starts minimized).
pub const AUTOSTART_FLAG: &'static str = "--autostart";

/// The command registered for auto-start: the quoted executable path
/// followed by [`AUTOSTART_FLAG`].
pub open spec fn run_command_text(exe: Seq<char>) -> Seq<char> {
    "\""@ + exe + "\" "@ + AUTOSTART_FLAG@
}

/// Builds the command line registered under the Run key for the executable
/// at `exe`.
pub fn run_command(exe: &str) -> (res: String)
    ensures
        res@ == run_command_text(exe@),
{
    let mut out = String::from_str("\"");
    out.append(exe);
    out.append("\" ");
    out.append(AUTOSTART_FLAG);
    out
}

/// The UTF-16 code units of one character.
pub open spec fn utf16_units(c: char) -> Seq<u16> {
    let v = c as u32;
    if v < 0x10000 {
        seq![v as u16]
    } else {
        seq![(0xD800 + (v - 0x10000) / 0x400) as u16, (0xDC00 + (v - 0x10000) % 0x400) as u16]
    }
}

/// The UTF-16 encoding of a character sequence.
pub open spec fn utf16(s: Seq<char>) -> Seq<u16>
    decreases s.len(),
{
    if s.len() == 0 {
        seq![]
    } else {
        utf16(s.drop_last()) + utf16_units(s.last())
    }
}

/// Encodes a string as a NUL-terminated UTF-16 buffer for the wide (`*W`)
/// registry functions.
pub fn wide(value: &str) -> (res: Vec<u16>)
    ensures
        res@ == utf16(value@).push(0),
{
    let chars = chars_of(value);
    let mut out: Vec<u16> = Vec::new();
    let mut i: usize = 0;
    while i < chars.len()
        invariant
            i <= chars@.len(),
            chars@ == value@,
            out@ == utf16(chars@.take(i as int)),
        decreases chars@.len() - i,
    {
        let c = chars[i];
        let v = c as u32;
        assert(chars@.take(i + 1).drop_last() == chars@.take(i as int));
        if v < 0x10000 {
            out.push(v as u16);
        } else {
            assert(v <= 0x10FFFF) by {
                vstd::utf8::char_is_scalar(c);
            }
            out.push((0xD800 + (v - 0x10000) / 0x400) as u16);
            out.push((0xDC00 + (v - 0x10000) % 0x400) as u16);
        }
        i += 1;
    }
    assert(chars@.take(chars@.len() as int) == chars@);
    out.push(0);
    out
}

} // verus!
