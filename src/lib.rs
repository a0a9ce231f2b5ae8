//! Raw SocketCAN sockets: the decisions behind opening, configuring, reading
//! and writing CAN and CAN FD frames, with their contracts proved.
//!
//! The system calls themselves are made by the caller; this crate decides
//! what to hand them and what their results mean.

mod abi;
mod error;
mod filter;
mod frame;
mod io;
mod open;
mod options;

pub use abi::{
    CANFD_MTU, CAN_ERR_MASK, CAN_INV_FILTER, CAN_MTU, CAN_RAW, CAN_RAW_ERR_FILTER, CAN_RAW_FD_FRAMES,
    CAN_RAW_FILTER, CAN_RAW_JOIN_FILTERS, CAN_RAW_LOOPBACK, CAN_RAW_RECV_OWN_MSGS, EAGAIN,
    EINPROGRESS, EWOULDBLOCK, SOL_CAN_BASE, SOL_CAN_RAW,
};
pub use error::{FailureKind, OsError, ShouldRetry};
pub use filter::{
    filters_accept, lemma_drop_all_and_accept_all, lemma_filter_matching, set_admits, CanFilter,
};
pub use options::{filter_words, flag_word, SocketOption};
pub use frame::{decode_read, decodes_to, lemma_frame_round_trip, CanRawFrame};
pub use io::{
    after_poll, insist_decision, insist_run, insist_step, lemma_insist_ends_at_first_unflagged,
    poll_timeout_ms, ExactRead, InsistStep, ReadStep,
};
pub use open::{
    create_flags, lemma_failed_open_leaks_nothing, open_run, CreateFlags, OpenAction, OpenSequence,
    OpenStage,
};
