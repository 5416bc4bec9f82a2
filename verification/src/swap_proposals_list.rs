//! A fixed-capacity list of swap proposals stored in account data: a count byte, then the
//! proposal slots.
use vstd::prelude::*;
use crate::bytes::{copied_range, copy_range};
use crate::swap_proposal::{SwapProposal, SwapProposalValue, proposal_at, same_outside};

verus! {

/// A view of the swap proposal list stored at `offset` of some account data.
#[derive(Clone, Copy, Debug, PartialEq, Eq)]
pub struct SwapProposalsList {
    pub offset: usize,
}

impl SwapProposalsList {
    /// Bytes of one proposal slot.
    pub const ITEM_SIZE: usize = 5;

    /// Number of proposal slots.
    pub const ITEM_CAPACITY: usize = 20;

    /// Bytes of the list: the count byte and the slots.
    pub const LEN: usize = 101;

    /// The list lies inside `data`.
    pub open spec fn fits(&self, data: Seq<u8>) -> bool {
        self.offset + 101 <= data.len()
    }

    /// The stored count.
    pub open spec fn count(&self, data: Seq<u8>) -> u8 {
        data[self.offset as int]
    }

    /// Where slot `i` starts.
    pub open spec fn slot(&self, i: int) -> int {
        self.offset + 1 + 5 * i
    }

    /// The proposals of the list, as many as the count says.
    pub open spec fn view(&self, data: Seq<u8>) -> Seq<SwapProposalValue> {
        Seq::new(self.count(data) as nat, |i: int| proposal_at(data, self.slot(i)))
    }

    /// The number of proposals in the list.
    pub fn get_count(&self, data: &[u8]) -> (count: u8)
        requires
            self.offset + 101 <= data.len(),
        ensures
            count == self.count(data@),
            count == self.view(data@).len(),
    {
        data[self.offset]
    }

    fn set_count(&self, data: &mut [u8], value: u8)
        requires
            self.offset + 101 <= old(data).len(),
        ensures
            final(data)@ == old(data)@.update(self.offset as int, value),
    {
        data[self.offset] = value;
    }

    /// The proposal in slot `i`; `i` must be below the count.
    pub fn get(&self, data: &[u8], i: u8) -> (proposal: SwapProposal)
        requires
            self.offset + 101 <= data.len(),
            i < self.count(data@),
            self.slot(i as int) <= usize::MAX,
        ensures
            proposal.offset == self.slot(i as int),
            proposal.offset == self.offset + 1 + 5 * (i as int),
    {
        let _count = self.get_count(data);
        SwapProposal { offset: self.offset + 1 + (i as usize) * 5 }
    }

    /// Appends a proposal: the slot after the last one gets the two player ids and the
    /// initialized flag, and the count grows by one. The list must not be full.
    pub fn add(&self, data: &mut [u8], give_player_id: u16, want_player_id: u16)
        requires
            self.offset + 101 <= old(data).len(),
            (self.count(old(data)@) as int) < 20,
        ensures
            self.count(final(data)@) == self.count(old(data)@) + 1,
            self.view(final(data)@) == self.view(old(data)@).push(
                SwapProposalValue { give_player_id, want_player_id, is_initialized: 1 },
            ),
            forall|k: int|
                0 <= k < old(data)@.len() && k != self.offset && !(self.slot(
                    self.count(old(data)@) as int,
                ) <= k < self.slot(self.count(old(data)@) as int) + 5) ==> final(data)@[k]
                    == old(data)@[k],
            final(data)@.len() == old(data)@.len(),
    {
        let ghost d0 = data@;
        let count = self.get_count(data);
        self.set_count(data, count + 1);
        let proposal = self.get(data, self.get_count(data) - 1);
        proposal.set_give_player_id(data, give_player_id);
        proposal.set_want_player_id(data, want_player_id);
        proposal.set_is_initialized(data, true);
        proof {
            let d1 = data@;
            let n = count as int;
            assert(proposal.offset == self.slot(n));
            assert forall|k: int|
                0 <= k < d0.len() && k != self.offset && !(self.slot(n) <= k < self.slot(n) + 5)
                implies d1[k] == d0[k] by {}
            assert(proposal_at(d1, self.slot(n)) == SwapProposalValue {
                give_player_id,
                want_player_id,
                is_initialized: 1,
            });
            assert forall|j: int| 0 <= j < n implies proposal_at(d1, self.slot(j)) == proposal_at(
                d0,
                self.slot(j),
            ) by {
                assert(d1[self.slot(j)] == d0[self.slot(j)]);
                assert(d1[self.slot(j) + 1] == d0[self.slot(j) + 1]);
                assert(d1[self.slot(j) + 2] == d0[self.slot(j) + 2]);
                assert(d1[self.slot(j) + 3] == d0[self.slot(j) + 3]);
                assert(d1[self.slot(j) + 4] == d0[self.slot(j) + 4]);
            }
            assert(self.view(d1) =~= self.view(d0).push(
                SwapProposalValue { give_player_id, want_player_id, is_initialized: 1 },
            ));
        }
    }

    /// Removes proposal `i`, which must be the last one: its slot is cleared (both ids 0,
    /// flag 0) and the count drops by one. Moving a later proposal down would need
    /// `copy_to` to read and write the same account data, which it cannot, so only the last
    /// proposal can be removed.
    pub fn remove(&self, data: &mut [u8], i: u8)
        requires
            self.offset + 101 <= old(data).len(),
            i as int + 1 == self.count(old(data)@),
            self.slot(i as int) + 5 <= old(data).len(),
        ensures
            self.count(final(data)@) == self.count(old(data)@) - 1,
            self.view(final(data)@) == self.view(old(data)@).drop_last(),
            proposal_at(final(data)@, self.slot(i as int)) == (SwapProposalValue {
                give_player_id: 0,
                want_player_id: 0,
                is_initialized: 0,
            }),
            forall|k: int|
                0 <= k < old(data)@.len() && k != self.offset && !(self.slot(i as int) <= k
                    < self.slot(i as int) + 5) ==> final(data)@[k] == old(data)@[k],
            final(data)@.len() == old(data)@.len(),
    {
        let ghost d0 = data@;
        let count = self.get_count(data);
        let last = self.get(data, count - 1);
        last.set_give_player_id(data, 0);
        last.set_want_player_id(data, 0);
        last.set_is_initialized(data, false);
        self.set_count(data, count - 1);
        proof {
            let d1 = data@;
            let n = i as int;
            assert(last.offset == self.slot(n));
            assert forall|k: int|
                0 <= k < d0.len() && k != self.offset && !(self.slot(n) <= k < self.slot(n) + 5)
                implies d1[k] == d0[k] by {}
            assert forall|j: int| 0 <= j < n implies proposal_at(d1, self.slot(j)) == proposal_at(
                d0,
                self.slot(j),
            ) by {
                assert(d1[self.slot(j)] == d0[self.slot(j)]);
                assert(d1[self.slot(j) + 1] == d0[self.slot(j) + 1]);
                assert(d1[self.slot(j) + 2] == d0[self.slot(j) + 2]);
                assert(d1[self.slot(j) + 3] == d0[self.slot(j) + 3]);
                assert(d1[self.slot(j) + 4] == d0[self.slot(j) + 4]);
            }
            assert(self.view(d1) =~= self.view(d0).drop_last());
        }
    }

    /// Copies the whole list's bytes from `src` into `dst` at this list's own offset; `to`
    /// only names the destination view and its offset is not used.
    pub fn copy_to(&self, src: &[u8], to: &SwapProposalsList, dst: &mut [u8])
        requires
            self.offset + 101 <= src.len(),
            self.offset + 101 <= old(dst).len(),
        ensures
            copied_range(old(dst)@, final(dst)@, src@, self.offset as int, 101),
            self.count(src@) <= 20 ==> self.view(final(dst)@) == self.view(src@),
    {
        copy_range(src, dst, self.offset, 101);
        proof {
            let d = dst@;
            let c = self.count(src@) as int;
            assert forall|j: int| 0 <= j < c && c <= 20 implies proposal_at(d, self.slot(j)) == proposal_at(
                src@,
                self.slot(j),
            ) by {
                assert(d[self.slot(j)] == src@[self.slot(j)]);
                assert(d[self.slot(j) + 1] == src@[self.slot(j) + 1]);
                assert(d[self.slot(j) + 2] == src@[self.slot(j) + 2]);
                assert(d[self.slot(j) + 3] == src@[self.slot(j) + 3]);
                assert(d[self.slot(j) + 4] == src@[self.slot(j) + 4]);
            }
            if c <= 20 {
                assert(self.view(d) =~= self.view(src@));
            }
        }
    }
}

/// Slot `i` of a list starts `1 + 5 * i` bytes after the list: the count byte, then the
/// slots in order, each as long as a stored proposal.
pub proof fn lemma_slot_layout(list: SwapProposalsList, i: int)
    ensures
        list.slot(i) == list.offset + 1 + 5 * i,
        list.slot(i + 1) == list.slot(i) + SwapProposal::LEN,
        list.slot(0) == list.offset + 1,
        list.slot(SwapProposalsList::ITEM_CAPACITY as int) == list.offset + SwapProposalsList::LEN,
{
}

/// After `add`, the new proposal is stored, in order, in the five bytes that start
/// `1 + 5 * n` bytes after the list, `n` being the count before the call.
pub proof fn lemma_added_proposal_bytes(
    list: SwapProposalsList,
    before: Seq<u8>,
    after: Seq<u8>,
    give_player_id: u16,
    want_player_id: u16,
)
    requires
        list.fits(before),
        (list.count(before) as int) < 20,
        after.len() == before.len(),
        list.count(after) == list.count(before) + 1,
        list.view(after) == list.view(before).push(
            SwapProposalValue { give_player_id, want_player_id, is_initialized: 1 },
        ),
    ensures
        ({
            let at = list.offset + 1 + 5 * (list.count(before) as int);
            &&& after[at] as int + 256 * after[at + 1] as int == give_player_id
            &&& after[at + 2] as int + 256 * after[at + 3] as int == want_player_id
            &&& after[at + 4] == 1
        }),
{
    let n = list.count(before) as int;
    assert(list.view(after)[n] == proposal_at(after, list.slot(n)));
    crate::bytes::lemma_u16_le_at_value(after, list.slot(n));
    crate::bytes::lemma_u16_le_at_value(after, list.slot(n) + 2);
}

/// Adding a proposal and then removing the last one gives back the list of proposals.
pub proof fn lemma_add_then_remove(
    list: SwapProposalsList,
    before: Seq<u8>,
    added: Seq<u8>,
    removed: Seq<u8>,
    value: SwapProposalValue,
)
    requires
        list.view(added) == list.view(before).push(value),
        list.view(removed) == list.view(added).drop_last(),
    ensures
        list.view(removed) == list.view(before),
{
    assert(list.view(before).push(value).drop_last() =~= list.view(before));
}

/// Writing inside slot `j` of a list, and nowhere else, changes only the `j`-th proposal
/// of the list, and leaves its count alone.
pub proof fn lemma_write_in_slot(list: SwapProposalsList, before: Seq<u8>, after: Seq<u8>, j: int)
    requires
        list.fits(before),
        list.count(before) <= 20,
        0 <= j < list.count(before),
        same_outside(before, after, list.slot(j), 5),
    ensures
        list.count(after) == list.count(before),
        list.view(after) == list.view(before).update(j, proposal_at(after, list.slot(j))),
{
    let n = list.count(before) as int;
    assert(after[list.offset as int] == before[list.offset as int]);
    assert forall|i: int| 0 <= i < n && i != j implies proposal_at(after, list.slot(i))
        == proposal_at(before, list.slot(i)) by {
        assert(after[list.slot(i)] == before[list.slot(i)]);
        assert(after[list.slot(i) + 1] == before[list.slot(i) + 1]);
        assert(after[list.slot(i) + 2] == before[list.slot(i) + 2]);
        assert(after[list.slot(i) + 3] == before[list.slot(i) + 3]);
        assert(after[list.slot(i) + 4] == before[list.slot(i) + 4]);
    }
    assert(list.view(after) =~= list.view(before).update(j, proposal_at(after, list.slot(j))));
}

} // verus!
