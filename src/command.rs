//! The payloads written to the control characteristic to move the desk.
use vstd::prelude::*;

verus! {

/// Raises the desk.
pub const UP: [u8; 2] = [0x47, 0x00];

/// Lowers the desk.
pub const DOWN: [u8; 2] = [0x46, 0x00];

/// Stops the desk.
pub const STOP: [u8; 2] = [0xFF, 0x00];

/// A motion command.
#[derive(Debug, Clone, Copy, PartialEq, Eq, Structural)]
pub enum Command {
    Up,
    Down,
    Stop,
}

/// The opcode of a command: the 16-bit little-endian value its payload holds.
pub open spec fn opcode(c: Command) -> u16 {
    match c {
        Command::Up => 0x47,
        Command::Down => 0x46,
        Command::Stop => 0xFF,
    }
}

/// The two bytes written for a command: its opcode, low byte first.
pub open spec fn payload_bytes(c: Command) -> Seq<u8> {
    seq![(opcode(c) % 256) as u8, (opcode(c) / 256) as u8]
}

impl Command {
    /// The bytes to write to the control characteristic for this command.
    pub fn payload(&self) -> (r: [u8; 2])
        ensures
            r@ == payload_bytes(*self),
    {
        let r = match self {
            Command::Up => UP,
            Command::Down => DOWN,
            Command::Stop => STOP,
        };
        assert(r@ =~= payload_bytes(*self));
        r
    }
}

/// The three payloads are two bytes each: the raise, lower and stop opcodes,
/// low byte first, and the named constants hold them.
pub proof fn lemma_command_payloads()
    ensures
        payload_bytes(Command::Up) == seq![0x47u8, 0x00u8],
        payload_bytes(Command::Down) == seq![0x46u8, 0x00u8],
        payload_bytes(Command::Stop) == seq![0xFFu8, 0x00u8],
        UP@ == payload_bytes(Command::Up),
        DOWN@ == payload_bytes(Command::Down),
        STOP@ == payload_bytes(Command::Stop),
{
    assert(payload_bytes(Command::Up) =~= seq![0x47u8, 0x00u8]);
    assert(payload_bytes(Command::Down) =~= seq![0x46u8, 0x00u8]);
    assert(payload_bytes(Command::Stop) =~= seq![0xFFu8, 0x00u8]);
    assert(UP@ =~= payload_bytes(Command::Up));
    assert(DOWN@ =~= payload_bytes(Command::Down));
    assert(STOP@ =~= payload_bytes(Command::Stop));
}

} // verus!
