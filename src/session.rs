//! A session with a bound desk: the requests its operations issue.
//!
//! The session holds the positions of the control and status characteristics
//! in the list the peripheral reported. Its operations do not touch the radio:
//! each returns the request to perform, and a height read's answer is handed
//! back to be decoded.
use vstd::prelude::*;

use crate::command::{payload_bytes, Command};
use crate::error::DeskError;
use crate::gatt::{is_uuid, Uuid, CONTROL_UUID, STATUS_UUID};
use crate::height::{decodable, decode_height, height_of, DecodeError};

verus! {

/// A request on one of the peripheral's characteristics, named by its position
/// in the list the peripheral reported.
#[derive(Debug, Clone, Copy, PartialEq, Eq, Structural)]
pub enum Request {
    /// Write a command's payload, without waiting for a response.
    Write { characteristic: usize, command: Command },
    /// Read the characteristic's value.
    Read { characteristic: usize },
}

/// The two characteristics bound on a connected desk.
#[derive(Debug, Clone, Copy, PartialEq, Eq, Structural)]
pub struct DeskSession {
    control: usize,
    status: usize,
}

impl DeskSession {
    pub closed spec fn control_spec(&self) -> usize {
        self.control
    }

    pub closed spec fn status_spec(&self) -> usize {
        self.status
    }

    /// Both bindings name characteristics of `uuids` with the right UUID.
    pub open spec fn bound_to(&self, uuids: Seq<Uuid>) -> bool {
        &&& self.control_spec() < uuids.len()
        &&& is_uuid(uuids[self.control_spec() as int], CONTROL_UUID)
        &&& self.status_spec() < uuids.len()
        &&& is_uuid(uuids[self.status_spec() as int], STATUS_UUID)
    }

    /// Each binding is the first characteristic of `uuids` with its UUID.
    pub open spec fn first_bound(&self, uuids: Seq<Uuid>) -> bool {
        &&& forall|j: int| 0 <= j < self.control_spec() ==> !is_uuid(#[trigger] uuids[j], CONTROL_UUID)
        &&& forall|j: int| 0 <= j < self.status_spec() ==> !is_uuid(#[trigger] uuids[j], STATUS_UUID)
    }

    /// The request that sends command `c`.
    pub open spec fn command_request(&self, c: Command) -> Request {
        Request::Write { characteristic: self.control_spec(), command: c }
    }

    /// The request that reads the height.
    pub open spec fn height_request_spec(&self) -> Request {
        Request::Read { characteristic: self.status_spec() }
    }

    pub(crate) fn new(control: usize, status: usize) -> (r: DeskSession)
        ensures
            r.control_spec() == control,
            r.status_spec() == status,
    {
        DeskSession { control, status }
    }

    /// Position of the control characteristic.
    pub fn control(&self) -> (r: usize)
        ensures
            r == self.control_spec(),
    {
        self.control
    }

    /// Position of the status characteristic.
    pub fn status(&self) -> (r: usize)
        ensures
            r == self.status_spec(),
    {
        self.status
    }

    /// The request that sends command `c` to the control characteristic.
    pub fn command(&self, c: Command) -> (r: Request)
        ensures
            r == self.command_request(c),
    {
        Request::Write { characteristic: self.control, command: c }
    }

    /// Raises the desk.
    pub fn up(&self) -> (r: Request)
        ensures
            r == self.command_request(Command::Up),
    {
        self.command(Command::Up)
    }

    /// Lowers the desk.
    pub fn down(&self) -> (r: Request)
        ensures
            r == self.command_request(Command::Down),
    {
        self.command(Command::Down)
    }

    /// Stops the desk.
    pub fn stop(&self) -> (r: Request)
        ensures
            r == self.command_request(Command::Stop),
    {
        self.command(Command::Stop)
    }

    /// The request that reads the status characteristic, whose answer
    /// `height_from_response` decodes.
    pub fn height_request(&self) -> (r: Request)
        ensures
            r == self.height_request_spec(),
    {
        Request::Read { characteristic: self.status }
    }

    /// The height, in tenths of a millimetre, reported by the status read's
    /// answer `response`.
    pub fn height_from_response(&self, response: &[u8]) -> (r: Result<u32, DeskError>)
        ensures
            decodable(response@) <==> r is Ok,
            r is Ok ==> r->Ok_0 == height_of(response@),
            r is Err ==> r->Err_0 == DeskError::Decode(DecodeError::TooShort),
    {
        match decode_height(response) {
            Ok(h) => Ok(h),
            Err(e) => Err(DeskError::Decode(e)),
        }
    }
}

/// Whether `r` writes to characteristic `ch` the payload `bytes`.
pub open spec fn writes(r: Request, ch: usize, bytes: Seq<u8>) -> bool {
    match r {
        Request::Write { characteristic, command } => characteristic == ch && payload_bytes(command)
            == bytes,
        Request::Read { .. } => false,
    }
}

/// Raising then stopping the desk issues exactly two requests: a write of the
/// raise payload, then one of the stop payload, both to the control
/// characteristic, and no read.
pub proof fn lemma_up_then_stop(s: DeskSession)
    ensures
        ({
            let issued = seq![s.command_request(Command::Up), s.command_request(Command::Stop)];
            &&& issued.len() == 2
            &&& writes(issued[0], s.control_spec(), seq![0x47u8, 0x00u8])
            &&& writes(issued[1], s.control_spec(), seq![0xFFu8, 0x00u8])
            &&& forall|i: int| 0 <= i < issued.len() ==> !(#[trigger] issued[i] is Read)
        }),
{
    assert(payload_bytes(Command::Up) =~= seq![0x47u8, 0x00u8]);
    assert(payload_bytes(Command::Stop) =~= seq![0xFFu8, 0x00u8]);
}

} // verus!
