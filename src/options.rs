//! Socket options: what is handed to `setsockopt` for each setting.
//!
//! An option value is a sequence of 32-bit words, written to the kernel in
//! host byte order. Every named option is built from one of two primitives,
//! `single` and `multi`.

use vstd::prelude::*;

use crate::abi::{
    CAN_ERR_MASK, CAN_RAW_ERR_FILTER, CAN_RAW_FD_FRAMES, CAN_RAW_FILTER, CAN_RAW_JOIN_FILTERS,
    CAN_RAW_LOOPBACK, CAN_RAW_RECV_OWN_MSGS, SOL_CAN_RAW,
};
use crate::filter::CanFilter;

verus! {

/// One `setsockopt` request: level, option name and value.
#[derive(Debug)]
pub struct SocketOption {
    pub level: i32,
    pub name: i32,
    pub words: Vec<u32>,
}

/// The words of a filter table: each rule's id, then its mask.
pub open spec fn filter_words(filters: Seq<CanFilter>) -> Seq<u32>
    decreases filters.len(),
{
    if filters.len() == 0 {
        Seq::empty()
    } else {
        filter_words(filters.drop_last()) + seq![filters.last().can_id, filters.last().can_mask]
    }
}

/// The value a boolean option takes.
pub open spec fn flag_word(enabled: bool) -> u32 {
    if enabled {
        1
    } else {
        0
    }
}

impl SocketOption {
    /// Whether the request is for the given level and option name.
    pub open spec fn targets(self, level: i32, name: i32) -> bool {
        self.level == level && self.name == name
    }

    /// A request that sets one word.
    pub fn single(level: i32, name: i32, value: u32) -> (r: SocketOption)
        ensures
            r.targets(level, name),
            r.words@ == seq![value],
    {
        let mut words: Vec<u32> = Vec::new();
        words.push(value);
        SocketOption { level, name, words }
    }

    /// A request that sets a sequence of words, possibly empty.
    pub fn multi(level: i32, name: i32, values: &[u32]) -> (r: SocketOption)
        ensures
            r.targets(level, name),
            r.words@ == values@,
    {
        let mut words: Vec<u32> = Vec::new();
        let mut i: usize = 0;
        while i < values.len()
            invariant
                0 <= i <= values@.len(),
                words@ == values@.subrange(0, i as int),
            decreases values@.len() - i,
        {
            words.push(values[i]);
            i = i + 1;
            assert(words@ =~= values@.subrange(0, i as int));
        }
        assert(words@ =~= values@);
        SocketOption { level, name, words }
    }

    /// The filter table holding exactly the given rules, replacing any
    /// earlier table.
    pub fn filters(filters: &[CanFilter]) -> (r: SocketOption)
        ensures
            r.targets(SOL_CAN_RAW, CAN_RAW_FILTER),
            r.words@ == filter_words(filters@),
    {
        let mut words: Vec<u32> = Vec::new();
        let mut i: usize = 0;
        while i < filters.len()
            invariant
                0 <= i <= filters@.len(),
                words@ == filter_words(filters@.subrange(0, i as int)),
            decreases filters@.len() - i,
        {
            let f = filters[i];
            words.push(f.can_id);
            words.push(f.can_mask);
            let ghost prefix = filters@.subrange(0, i as int + 1);
            assert(prefix.drop_last() =~= filters@.subrange(0, i as int));
            i = i + 1;
        }
        assert(filters@.subrange(0, filters@.len() as int) =~= filters@);
        SocketOption::multi(SOL_CAN_RAW, CAN_RAW_FILTER, words.as_slice())
    }

    /// The empty filter table: no frame is received.
    pub fn filter_drop_all() -> (r: SocketOption)
        ensures
            r.targets(SOL_CAN_RAW, CAN_RAW_FILTER),
            r.words@ == Seq::<u32>::empty(),
    {
        let none: Vec<CanFilter> = Vec::new();
        let r = SocketOption::filters(none.as_slice());
        assert(r.words@ =~= Seq::<u32>::empty());
        r
    }

    /// The table of the single rule with id 0 and mask 0: every frame is
    /// received.
    pub fn filter_accept_all() -> (r: SocketOption)
        ensures
            r.targets(SOL_CAN_RAW, CAN_RAW_FILTER),
            r.words@ == seq![0u32, 0u32],
    {
        let mut all: Vec<CanFilter> = Vec::new();
        all.push(CanFilter::new(0, 0));
        let r = SocketOption::filters(all.as_slice());
        assert(all@.drop_last() =~= Seq::<CanFilter>::empty());
        assert(filter_words(all@.drop_last()) =~= Seq::<u32>::empty());
        assert(all@.last() == CanFilter { can_id: 0, can_mask: 0 });
        assert(r.words@ =~= seq![0u32, 0u32]);
        r
    }

    /// The error-frame mask: the error conditions reported as error frames.
    pub fn error_filter(mask: u32) -> (r: SocketOption)
        ensures
            r.targets(SOL_CAN_RAW, CAN_RAW_ERR_FILTER),
            r.words@ == seq![mask],
    {
        SocketOption::single(SOL_CAN_RAW, CAN_RAW_ERR_FILTER, mask)
    }

    /// The error-frame mask that reports no error condition.
    pub fn error_filter_drop_all() -> (r: SocketOption)
        ensures
            r.targets(SOL_CAN_RAW, CAN_RAW_ERR_FILTER),
            r.words@ == seq![0u32],
    {
        SocketOption::error_filter(0)
    }

    /// The error-frame mask that reports every error condition.
    pub fn error_filter_accept_all() -> (r: SocketOption)
        ensures
            r.targets(SOL_CAN_RAW, CAN_RAW_ERR_FILTER),
            r.words@ == seq![CAN_ERR_MASK],
    {
        SocketOption::error_filter(CAN_ERR_MASK)
    }

    /// Local loopback of sent frames to other sockets (on by default).
    pub fn loopback(enabled: bool) -> (r: SocketOption)
        ensures
            r.targets(SOL_CAN_RAW, CAN_RAW_LOOPBACK),
            r.words@ == seq![flag_word(enabled)],
    {
        SocketOption::single(SOL_CAN_RAW, CAN_RAW_LOOPBACK, if enabled { 1 } else { 0 })
    }

    /// Receipt of the socket's own sent frames (off by default).
    pub fn recv_own_msgs(enabled: bool) -> (r: SocketOption)
        ensures
            r.targets(SOL_CAN_RAW, CAN_RAW_RECV_OWN_MSGS),
            r.words@ == seq![flag_word(enabled)],
    {
        SocketOption::single(SOL_CAN_RAW, CAN_RAW_RECV_OWN_MSGS, if enabled { 1 } else { 0 })
    }

    /// Whether a frame must match every filter rather than any one.
    pub fn join_filters(enabled: bool) -> (r: SocketOption)
        ensures
            r.targets(SOL_CAN_RAW, CAN_RAW_JOIN_FILTERS),
            r.words@ == seq![flag_word(enabled)],
    {
        SocketOption::single(SOL_CAN_RAW, CAN_RAW_JOIN_FILTERS, if enabled { 1 } else { 0 })
    }

    /// Acceptance of CAN FD frames on the socket.
    pub fn fd_frames(enabled: bool) -> (r: SocketOption)
        ensures
            r.targets(SOL_CAN_RAW, CAN_RAW_FD_FRAMES),
            r.words@ == seq![flag_word(enabled)],
    {
        SocketOption::single(SOL_CAN_RAW, CAN_RAW_FD_FRAMES, if enabled { 1 } else { 0 })
    }
}

} // verus!
