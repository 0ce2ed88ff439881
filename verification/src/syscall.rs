//! The syscall-number taxonomy and the console sink that print and read
//! syscalls target.
//!
//! Decoding a syscall number is total: every unmapped code maps to the
//! Unknown sentinel. The console holds an output accumulator and a FIFO
//! input queue; echoing the output to a live terminal is the caller's
//! business, not this component's.

use vstd::prelude::*;
use vstd::string::StrSliceExecFns;
use crate::text::{hex4, hex_digit_char, push_char};

verus! {

/// A system-call code, with Unknown standing for every unmapped number.
#[derive(Debug, Clone, Copy, PartialEq, Eq, Structural)]
pub enum Syscall {
    /// Exit program (code 0x00).
    Exit,
    /// Print a character to the console (code 0x01).
    PrintChar,
    /// Print a hex value (code 0x02).
    PrintHex,
    /// Read a character from input (code 0x03).
    ReadChar,
    /// Get the cycle count (code 0x04).
    GetTime,
    /// Sleep for N cycles (code 0x05).
    Sleep,
    /// Allocate memory (code 0x06).
    AllocMem,
    /// Free memory (code 0x07).
    FreeMem,
    /// Open a simulated file (code 0x08).
    OpenFile,
    /// Close a file (code 0x09).
    CloseFile,
    /// Read from a file (code 0x0A).
    ReadFile,
    /// Write to a file (code 0x0B).
    WriteFile,
    /// Any unmapped code.
    Unknown,
}

/// The syscall that a numeric code names.
pub open spec fn spec_syscall_from(value: u16) -> Syscall {
    if value == 0x00 {
        Syscall::Exit
    } else if value == 0x01 {
        Syscall::PrintChar
    } else if value == 0x02 {
        Syscall::PrintHex
    } else if value == 0x03 {
        Syscall::ReadChar
    } else if value == 0x04 {
        Syscall::GetTime
    } else if value == 0x05 {
        Syscall::Sleep
    } else if value == 0x06 {
        Syscall::AllocMem
    } else if value == 0x07 {
        Syscall::FreeMem
    } else if value == 0x08 {
        Syscall::OpenFile
    } else if value == 0x09 {
        Syscall::CloseFile
    } else if value == 0x0A {
        Syscall::ReadFile
    } else if value == 0x0B {
        Syscall::WriteFile
    } else {
        Syscall::Unknown
    }
}

impl Syscall {
    /// Decode a numeric syscall code; total, never fails.
    pub fn from_u16(value: u16) -> (r: Syscall)
        ensures
            r == spec_syscall_from(value),
    {
        match value {
            0x00 => Syscall::Exit,
            0x01 => Syscall::PrintChar,
            0x02 => Syscall::PrintHex,
            0x03 => Syscall::ReadChar,
            0x04 => Syscall::GetTime,
            0x05 => Syscall::Sleep,
            0x06 => Syscall::AllocMem,
            0x07 => Syscall::FreeMem,
            0x08 => Syscall::OpenFile,
            0x09 => Syscall::CloseFile,
            0x0A => Syscall::ReadFile,
            0x0B => Syscall::WriteFile,
            _ => Syscall::Unknown,
        }
    }
}

/// Console sink: an output accumulator and a FIFO queue of pending input
/// characters.
pub struct Console {
    output: Vec<char>,
    input: Vec<char>,
}

impl Console {
    /// The characters emitted so far, oldest first.
    pub closed spec fn output_view(self) -> Seq<char> {
        self.output@
    }

    /// The pending input characters, head first.
    pub closed spec fn input_view(self) -> Seq<char> {
        self.input@
    }

    /// An empty console: no output emitted, no input pending.
    pub fn new() -> (r: Console)
        ensures
            r.output_view() == Seq::<char>::empty(),
            r.input_view() == Seq::<char>::empty(),
    {
        Console { output: Vec::new(), input: Vec::new() }
    }

    /// Append one character to the output accumulator.
    pub fn print_char(&mut self, c: char)
        ensures
            final(self).output_view() == old(self).output_view().push(c),
            final(self).input_view() == old(self).input_view(),
    {
        self.output.push(c);
    }

    /// Append a value to the output accumulator, rendered as 0x followed by
    /// four uppercase hex digits.
    pub fn print_hex(&mut self, value: u16)
        ensures
            final(self).output_view() == old(self).output_view() + seq!['0', 'x'] + hex4(value),
            final(self).input_view() == old(self).input_view(),
    {
        self.output.push('0');
        self.output.push('x');
        self.output.push(hex_digit_char(value / 4096));
        self.output.push(hex_digit_char((value / 256) % 16));
        self.output.push(hex_digit_char((value / 16) % 16));
        self.output.push(hex_digit_char(value % 16));
        proof {
            assert(self.output@ =~= old(self).output_view() + seq!['0', 'x'] + hex4(value));
        }
    }

    /// Pop the head of the input queue, or report that it is empty.
    pub fn read_char(&mut self) -> (r: Option<char>)
        ensures
            old(self).input_view().len() == 0 ==> r is None && *final(self) == *old(self),
            old(self).input_view().len() > 0 ==> {
                &&& r == Some(old(self).input_view()[0])
                &&& final(self).input_view() == old(self).input_view().subrange(
                    1,
                    old(self).input_view().len() as int,
                )
                &&& final(self).output_view() == old(self).output_view()
            },
    {
        if self.input.is_empty() {
            None
        } else {
            Some(self.input.remove(0))
        }
    }

    /// Append every character of the text to the pending-input queue.
    pub fn queue_input(&mut self, input: &str)
        ensures
            final(self).input_view() == old(self).input_view() + input@,
            final(self).output_view() == old(self).output_view(),
    {
        let n = input.unicode_len();
        let mut i: usize = 0;
        while i < n
            invariant
                n == input@.len(),
                i <= n,
                self.input@ == old(self).input_view() + input@.subrange(0, i as int),
                self.output@ == old(self).output_view(),
            decreases n - i,
        {
            let c = input.get_char(i);
            self.input.push(c);
            i = i + 1;
            proof {
                assert(self.input@ =~= old(self).input_view() + input@.subrange(0, i as int));
            }
        }
        proof {
            assert(input@.subrange(0, n as int) =~= input@);
        }
    }

    /// All characters emitted so far, as text.
    pub fn get_output(&self) -> (r: String)
        ensures
            r@ == self.output_view(),
    {
        let mut r = String::new();
        let n = self.output.len();
        let mut i: usize = 0;
        while i < n
            invariant
                n == self.output@.len(),
                i <= n,
                r@ == self.output@.subrange(0, i as int),
            decreases n - i,
        {
            push_char(&mut r, self.output[i]);
            i = i + 1;
            proof {
                assert(r@ =~= self.output@.subrange(0, i as int));
            }
        }
        proof {
            assert(self.output@.subrange(0, n as int) =~= self.output@);
        }
        r
    }

    /// Empty the output accumulator; pending input is kept.
    pub fn clear_output(&mut self)
        ensures
            final(self).output_view() == Seq::<char>::empty(),
            final(self).input_view() == old(self).input_view(),
    {
        self.output.clear();
    }
}

} // verus!
