//! Frames as the kernel hands them over: a classic frame of `CAN_MTU`
//! bytes or an FD frame of `CANFD_MTU` bytes, told apart by size alone.

use vstd::prelude::*;

use crate::abi::{CANFD_MTU, CAN_MTU};
use crate::error::{FailureKind, OsError};

verus! {

/// A frame in its kernel wire layout.
#[derive(Debug)]
pub enum CanRawFrame {
    /// A classic CAN 2.0 frame.
    Classic(Vec<u8>),
    /// A CAN FD frame.
    Fd(Vec<u8>),
}

impl CanRawFrame {
    /// The frame's wire bytes.
    pub open spec fn bytes(self) -> Seq<u8> {
        match self {
            CanRawFrame::Classic(b) => b@,
            CanRawFrame::Fd(b) => b@,
        }
    }

    /// Each kind holds exactly its wire size.
    pub open spec fn wf(self) -> bool {
        match self {
            CanRawFrame::Classic(b) => b@.len() == CAN_MTU,
            CanRawFrame::Fd(b) => b@.len() == CANFD_MTU,
        }
    }

    /// The frame's wire bytes, ready for a single write.
    pub fn as_bytes(&self) -> (r: &[u8])
        ensures
            r@ == self.bytes(),
    {
        match self {
            CanRawFrame::Classic(b) => b.as_slice(),
            CanRawFrame::Fd(b) => b.as_slice(),
        }
    }

    /// Whether this is an FD frame.
    pub fn is_fd(&self) -> (r: bool)
        ensures
            r == (*self is Fd),
    {
        match self {
            CanRawFrame::Classic(_) => false,
            CanRawFrame::Fd(_) => true,
        }
    }

    /// The frame's size on the wire.
    pub fn wire_len(&self) -> (r: usize)
        requires
            self.wf(),
        ensures
            r == self.bytes().len(),
            r == CAN_MTU || r == CANFD_MTU,
    {
        match self {
            CanRawFrame::Classic(_) => CAN_MTU,
            CanRawFrame::Fd(_) => CANFD_MTU,
        }
    }
}

/// Copies a byte slice into a new vector.
fn copy_bytes(data: &[u8]) -> (r: Vec<u8>)
    ensures
        r@ == data@,
{
    let mut out: Vec<u8> = Vec::new();
    let mut i: usize = 0;
    while i < data.len()
        invariant
            0 <= i <= data@.len(),
            out@ == data@.subrange(0, i as int),
        decreases data@.len() - i,
    {
        out.push(data[i]);
        i = i + 1;
        assert(out@ =~= data@.subrange(0, i as int));
    }
    assert(out@ =~= data@);
    out
}

/// What a read that returned `data` yields: a classic frame for `CAN_MTU`
/// bytes, an FD frame for `CANFD_MTU` bytes, each holding exactly those
/// bytes, and a protocol violation for any other count.
pub open spec fn decodes_to(data: Seq<u8>, r: Result<CanRawFrame, OsError>) -> bool {
    if data.len() == CAN_MTU {
        r matches Ok(CanRawFrame::Classic(b)) && b@ == data
    } else if data.len() == CANFD_MTU {
        r matches Ok(CanRawFrame::Fd(b)) && b@ == data
    } else {
        r == Err::<CanRawFrame, OsError>(OsError { kind: FailureKind::InvalidData, code: None })
    }
}

/// Interprets the bytes that one read returned, by their number alone: a
/// classic frame for `CAN_MTU` bytes, an FD frame for `CANFD_MTU` bytes,
/// and a protocol violation otherwise. No frame is ever made of another
/// count.
pub fn decode_read(data: &[u8]) -> (r: Result<CanRawFrame, OsError>)
    ensures
        decodes_to(data@, r),
        r matches Ok(f) ==> f.wf() && f.bytes() == data@,
{
    if data.len() == CAN_MTU {
        Ok(CanRawFrame::Classic(copy_bytes(data)))
    } else if data.len() == CANFD_MTU {
        Ok(CanRawFrame::Fd(copy_bytes(data)))
    } else {
        Err(OsError::protocol_violation())
    }
}

/// The bytes written for a frame, read back whole, decode to a frame of the
/// same kind holding the same bytes.
pub proof fn lemma_frame_round_trip(f: CanRawFrame, r: Result<CanRawFrame, OsError>)
    requires
        f.wf(),
        decodes_to(f.bytes(), r),
    ensures
        r is Ok,
        r->Ok_0.bytes() == f.bytes(),
        r->Ok_0 is Fd <==> f is Fd,
{
}

} // verus!
