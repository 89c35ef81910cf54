//! Relocating a region into another, either dropping its tags or carrying
//! each granule's tag along with its data.
use vstd::prelude::*;

use crate::codec::{address_limit, set_tag};
use crate::memory::{lemma_next_multiple, RegionView, TaggedMemory};
use crate::mode::{set_mte_mode, ControlView, MTEMode, MteControl, ALL_TAGS};

verus! {

/// `dst` after its first `src.data.len()` bytes were overwritten by the data
/// of `src`; its tags are those it held.
pub open spec fn discard_copied(src: RegionView, dst: RegionView) -> RegionView {
    RegionView {
        data: src.data + dst.data.subrange(src.data.len() as int, dst.data.len() as int),
        ..dst
    }
}

/// `dst` after each granule of `src` was copied over the granule at the same
/// offset, its tag along with its data.
pub open spec fn preserved_copy(src: RegionView, dst: RegionView) -> RegionView {
    RegionView {
        base: dst.base,
        data: src.data + dst.data.subrange(src.data.len() as int, dst.data.len() as int),
        tags: src.tags + dst.tags.subrange(src.tags.len() as int, dst.tags.len() as int),
    }
}

/// Copies the data of `from` to the start of `to` with tag checking turned
/// off, so that tags play no part, then turns synchronous checking back on
/// with every tag included. The tags of `to` are left as they were.
pub fn migrate_mte_off(control: &mut MteControl, from: &TaggedMemory, to: &mut TaggedMemory)
    requires
        from.wf(),
        old(to).wf(),
        from@.data.len() % 16 == 0,
        old(to)@.data.len() >= from@.data.len(),
    ensures
        final(to).wf(),
        final(to)@ == discard_copied(from@, old(to)@),
        final(control).wf(),
        final(control)@ == (ControlView { mode: MTEMode::Sync, included_tags: ALL_TAGS as int }),
{
    let _ = set_mte_mode(control, MTEMode::Off);
    let src = from.bytes();
    let n = from.len();
    let base = to.base();
    let mut i: usize = 0;
    while i < n
        invariant
            to.wf(),
            old(to).wf(),
            src@ == from@.data,
            n == src@.len(),
            n <= to@.data.len(),
            to@.base == base,
            base + to@.data.len() <= address_limit(),
            to@.tags == old(to)@.tags,
            to@.data.len() == old(to)@.data.len(),
            i <= n,
            forall|k: int| 0 <= k < i ==> to@.data[k] == src@[k],
            forall|k: int| i <= k < to@.data.len() ==> to@.data[k] == old(to)@.data[k],
        decreases n - i,
    {
        to.write_byte(base + i as u64, src[i]);
        i = i + 1;
    }
    assert(to@.data =~= discard_copied(from@, old(to)@).data);
    let _ = set_mte_mode(control, MTEMode::Sync);
}

/// Copies `from` to the start of `to` one granule at a time: the source
/// granule's tag is loaded, then stored to the destination granule together
/// with the granule's data in a single step.
pub fn migrate_tags(from: &TaggedMemory, to: &mut TaggedMemory)
    requires
        from.wf(),
        old(to).wf(),
        from@.data.len() % 16 == 0,
        old(to)@.data.len() >= from@.data.len(),
    ensures
        final(to).wf(),
        final(to)@ == preserved_copy(from@, old(to)@),
{
    let src_base = from.base();
    let src_end = src_base + from.len() as u64;
    let dst_base = to.base();
    let ghost mut g: int = 0;
    let mut index = src_base;
    let mut index_to = dst_base;
    while index < src_end
        invariant
            from.wf(),
            to.wf(),
            old(to).wf(),
            to@.base == dst_base,
            to@.data.len() == old(to)@.data.len(),
            to@.tags.len() == old(to)@.tags.len(),
            from@.base == src_base,
            src_end == src_base + from@.data.len(),
            src_end <= address_limit(),
            dst_base + from@.data.len() <= address_limit(),
            from@.data.len() <= to@.data.len(),
            (src_end - src_base) % 16 == 0,
            src_base <= index <= src_end,
            index - src_base == 16 * g,
            index_to - dst_base == 16 * g,
            forall|k: int| 0 <= k < 16 * g ==> to@.data[k] == from@.data[k],
            forall|k: int|
                16 * g <= k < to@.data.len() ==> to@.data[k] == old(to)@.data[k],
            forall|k: int| 0 <= k < g ==> to@.tags[k] == from@.tags[k],
            forall|k: int| g <= k < to@.tags.len() ==> to@.tags[k] == old(to)@.tags[k],
        decreases src_end - index,
    {
        proof {
            vstd::arithmetic::div_mod::lemma_mod_multiples_basic(g, 16);
            vstd::arithmetic::div_mod::lemma_div_by_multiple(g, 16);
            lemma_next_multiple(index - src_base, src_end - src_base, 16);
        }
        let tag = from.load_tag(index);
        let value = from.load_granule(index);
        to.tag_and_store_granule(set_tag(index_to, tag as u64), value.as_slice());
        index = index + 16;
        index_to = index_to + 16;
        proof {
            g = g + 1;
        }
    }
    assert(to@.data =~= preserved_copy(from@, old(to)@).data);
    assert(to@.tags =~= preserved_copy(from@, old(to)@).tags);
}

} // verus!
