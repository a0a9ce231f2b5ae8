//! Constants of the Linux SocketCAN and errno ABI.

use vstd::prelude::*;

verus! {

/// Protocol number of raw CAN sockets.
pub const CAN_RAW: i32 = 1;

/// Base option level of CAN sockets.
pub const SOL_CAN_BASE: i32 = 100;

/// Option level of raw CAN sockets.
pub const SOL_CAN_RAW: i32 = 101;

/// Option name: the receive filter table.
pub const CAN_RAW_FILTER: i32 = 1;

/// Option name: the error-frame mask.
pub const CAN_RAW_ERR_FILTER: i32 = 2;

/// Option name: local loopback of sent frames.
pub const CAN_RAW_LOOPBACK: i32 = 3;

/// Option name: receipt of the socket's own sent frames.
pub const CAN_RAW_RECV_OWN_MSGS: i32 = 4;

/// Option name: acceptance of CAN FD frames.
pub const CAN_RAW_FD_FRAMES: i32 = 5;

/// Option name: a frame must match every filter rather than any.
pub const CAN_RAW_JOIN_FILTERS: i32 = 6;

/// Size in bytes of a classic CAN frame on the wire.
pub const CAN_MTU: usize = 16;

/// Size in bytes of a CAN FD frame on the wire.
pub const CANFD_MTU: usize = 72;

/// Bit of a filter's id that inverts the rule.
pub const CAN_INV_FILTER: u32 = 0x2000_0000;

/// Every error condition that the kernel reports.
pub const CAN_ERR_MASK: u32 = 0x1FFF_FFFF;

/// errno: resource temporarily unavailable.
pub const EAGAIN: i32 = 11;

/// errno: operation would block (the same code as `EAGAIN` on Linux).
pub const EWOULDBLOCK: i32 = 11;

/// errno: operation now in progress.
pub const EINPROGRESS: i32 = 115;

} // verus!
