//! Receive filter rules: an id and a mask, optionally inverted.

use vstd::prelude::*;

use crate::abi::CAN_INV_FILTER;

verus! {

/// A receive filter rule. A received id `r` matches when
/// `r & can_mask == can_id & can_mask`; when the inversion bit is set in
/// `can_id` the rule matches exactly the ids that fail that test.
#[derive(Clone, Copy, Debug, Hash, PartialEq, Eq, Structural)]
pub struct CanFilter {
    pub can_id: u32,
    pub can_mask: u32,
}

impl CanFilter {
    /// Whether the rule carries the inversion bit.
    pub open spec fn inverted(self) -> bool {
        self.can_id & CAN_INV_FILTER != 0
    }

    /// Whether a received id passes the rule.
    pub open spec fn admits(self, received_id: u32) -> bool {
        let base = self.can_id & !CAN_INV_FILTER;
        let same = received_id & self.can_mask == base & self.can_mask;
        if self.inverted() {
            !same
        } else {
            same
        }
    }

    /// A rule that matches ids equal to `id` under `mask`.
    pub fn new(id: u32, mask: u32) -> (r: CanFilter)
        ensures
            r.can_id == id,
            r.can_mask == mask,
    {
        CanFilter { can_id: id, can_mask: mask }
    }

    /// A rule that matches ids that differ from `id` under `mask`.
    pub fn new_inverted(id: u32, mask: u32) -> (r: CanFilter)
        ensures
            r.can_id == id | CAN_INV_FILTER,
            r.can_mask == mask,
    {
        CanFilter::new(id | CAN_INV_FILTER, mask)
    }

    /// Whether the rule is inverted.
    pub fn is_inverted(&self) -> (r: bool)
        ensures
            r == self.inverted(),
    {
        self.can_id & CAN_INV_FILTER != 0
    }

    /// Whether a received id passes the rule.
    pub fn matches(&self, received_id: u32) -> (r: bool)
        ensures
            r == self.admits(received_id),
    {
        let base = self.can_id & !CAN_INV_FILTER;
        let same = received_id & self.can_mask == base & self.can_mask;
        if self.is_inverted() {
            !same
        } else {
            same
        }
    }
}

impl From<(u32, u32)> for CanFilter {
    fn from(filt: (u32, u32)) -> (r: CanFilter) {
        CanFilter::new(filt.0, filt.1)
    }
}

impl vstd::std_specs::convert::FromSpecImpl<(u32, u32)> for CanFilter {
    open spec fn obeys_from_spec() -> bool {
        true
    }

    open spec fn from_spec(filt: (u32, u32)) -> CanFilter {
        CanFilter { can_id: filt.0, can_mask: filt.1 }
    }
}

/// Whether a set of rules lets a received id through. An empty set lets
/// nothing through; otherwise the id must pass any one rule, or every rule
/// when `join` is set.
pub open spec fn set_admits(filters: Seq<CanFilter>, join: bool, received_id: u32) -> bool {
    &&& filters.len() > 0
    &&& if join {
        forall|i: int| 0 <= i < filters.len() ==> #[trigger] filters[i].admits(received_id)
    } else {
        exists|i: int| 0 <= i < filters.len() && #[trigger] filters[i].admits(received_id)
    }
}

/// Whether a set of rules lets a received id through: none when the set is
/// empty, any rule by default, every rule when `join` is set.
pub fn filters_accept(filters: &[CanFilter], join: bool, received_id: u32) -> (r: bool)
    ensures
        r == set_admits(filters@, join, received_id),
{
    if filters.len() == 0 {
        return false;
    }
    let mut i: usize = 0;
    while i < filters.len()
        invariant
            0 <= i <= filters@.len(),
            filters@.len() > 0,
            join ==> forall|j: int| 0 <= j < i ==> #[trigger] filters@[j].admits(received_id),
            !join ==> forall|j: int| 0 <= j < i ==> !#[trigger] filters@[j].admits(received_id),
        decreases filters@.len() - i,
    {
        let hit = filters[i].matches(received_id);
        if join && !hit {
            return false;
        }
        if !join && hit {
            return true;
        }
        i = i + 1;
    }
    join
}

/// A rule built by `new` from an id without the inversion bit matches a
/// received id exactly when the two agree under the mask; the rule built by
/// `new_inverted` from the same pair matches exactly when they do not.
pub proof fn lemma_filter_matching(id: u32, mask: u32, received_id: u32)
    requires
        id & CAN_INV_FILTER == 0,
    ensures
        (CanFilter { can_id: id, can_mask: mask }).admits(received_id) == (received_id & mask
            == id & mask),
        (CanFilter { can_id: id | CAN_INV_FILTER, can_mask: mask }).admits(received_id) == (
        received_id & mask != id & mask),
{
    assert(id & !CAN_INV_FILTER == id) by (bit_vector)
        requires
            id & 0x2000_0000u32 == 0,
    ;
    assert((id | CAN_INV_FILTER) & CAN_INV_FILTER != 0) by (bit_vector);
    assert((id | CAN_INV_FILTER) & !CAN_INV_FILTER == id) by (bit_vector)
        requires
            id & 0x2000_0000u32 == 0,
    ;
}

/// An empty rule set lets no id through, and the single rule with id 0 and
/// mask 0 lets every id through, whichever way the rules are combined.
pub proof fn lemma_drop_all_and_accept_all(join: bool, received_id: u32)
    ensures
        !set_admits(Seq::empty(), join, received_id),
        set_admits(seq![CanFilter { can_id: 0, can_mask: 0 }], join, received_id),
{
    let f = CanFilter { can_id: 0, can_mask: 0 };
    assert(0u32 & CAN_INV_FILTER == 0) by (bit_vector);
    assert(received_id & 0u32 == (0u32 & !CAN_INV_FILTER) & 0u32) by (bit_vector);
    assert(f.admits(received_id));
    assert(seq![f][0] == f);
}

} // verus!
