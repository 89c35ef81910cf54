//! Properties that relate the operations of the library to one another.
use vstd::prelude::*;

use crate::engine::{prefetch_tagged, tagged, tagged_zeroed};
use crate::memory::RegionView;
use crate::migrate::{discard_copied, preserved_copy};
use crate::mode::ALL_TAGS;
use crate::random::{
    lemma_next_tag_differs, lemma_tag_sequence_bound, next_tag_of, randomized, tag_included,
    tag_sequence,
};

verus! {

/// After `stg` with a 4-bit tag, the tag loaded back at every address of the
/// region is that tag.
pub proof fn lemma_tag_round_trip(v: RegionView, tag: u64)
    requires
        v.wf(),
        v.data.len() % 16 == 0,
        tag < 16,
    ensures
        tagged(v, tag).wf(),
        forall|off: int| 0 <= off < v.data.len() ==> #[trigger] tagged(v, tag).tag_at(off) == tag,
{
    assert forall|off: int| 0 <= off < v.data.len() implies #[trigger] tagged(v, tag).tag_at(off)
        == tag by {
        vstd::arithmetic::div_mod::lemma_div_is_ordered(off, v.data.len() - 1, 16);
    }
}

/// After `stg_zero` or `stgp`, every data byte of the region is zero and
/// every granule carries the 4-bit tag.
pub proof fn lemma_zero_combining(v: RegionView, tag: u64)
    requires
        v.wf(),
        v.data.len() % 16 == 0,
        tag < 16,
    ensures
        tagged_zeroed(v, tag).wf(),
        tagged_zeroed(v, tag).data.len() == v.data.len(),
        forall|i: int| 0 <= i < v.data.len() ==> #[trigger] tagged_zeroed(v, tag).data[i] == 0,
        forall|g: int| 0 <= g < v.tags.len() ==> #[trigger] tagged_zeroed(v, tag).tags[g] == tag,
{
}

/// Tagging a region twice with one tag leaves it as tagging it once does.
pub proof fn lemma_tag_idempotent(v: RegionView, tag: u64)
    ensures
        tagged(tagged(v, tag), tag) == tagged(v, tag),
{
    assert(tagged(tagged(v, tag), tag).tags =~= tagged(v, tag).tags);
}

/// `stg_prefetch` leaves every granule with the tag that `stg` gives it,
/// whatever the block geometry and the region's length and alignment.
pub proof fn lemma_prefetch_matches_stg(v: RegionView, tag: u64, dczid: u64)
    requires
        v.wf(),
        v.data.len() % 16 == 0,
    ensures
        prefetch_tagged(v, tag, dczid).tags == tagged(v, tag).tags,
        prefetch_tagged(v, tag, dczid).base == tagged(v, tag).base,
{
}

/// Where the included-tags mask admits at least two tags, `set_tags_random`
/// gives no two adjacent granules the same tag.
pub proof fn lemma_random_adjacent_distinct_two_tags(v: RegionView, included: u64, a: u64, b: u64)
    requires
        a < 16,
        b < 16,
        a != b,
        tag_included(included, a),
        tag_included(included, b),
    ensures
        forall|g: int|
            0 <= g && g + 1 < v.tags.len() ==> #[trigger] randomized(v, included).tags[g]
                != randomized(v, included).tags[g + 1],
{
    assert forall|g: int| 0 <= g && g + 1 < v.tags.len() implies #[trigger] randomized(
        v,
        included,
    ).tags[g] != randomized(v, included).tags[g + 1] by {
        let s = tag_sequence(g as nat, included);
        lemma_tag_sequence_bound(g as nat, included);
        lemma_tag_sequence_bound((g + 1) as nat, included);
        let u = if a != s {
            a
        } else {
            b
        };
        lemma_next_tag_differs(s, u, included);
        assert(tag_sequence((g + 1) as nat, included) == next_tag_of(s, included));
    }
}

/// With every tag included, `set_tags_random` gives no two adjacent
/// granules the same tag.
pub proof fn lemma_random_adjacent_distinct(v: RegionView)
    ensures
        forall|g: int|
            0 <= g && g + 1 < v.tags.len() ==> #[trigger] randomized(v, ALL_TAGS).tags[g]
                != randomized(v, ALL_TAGS).tags[g + 1],
{
    assert((0xffffu64 >> 0u64) & 1 == 1 && (0xffffu64 >> 1u64) & 1 == 1) by (bit_vector);
    lemma_random_adjacent_distinct_two_tags(v, ALL_TAGS, 0, 1);
}

/// After `migrate_mte_off`, the destination starts with the source's data,
/// and its tags are those it held before.
pub proof fn lemma_discard_copies_data(src: RegionView, dst: RegionView)
    requires
        src.data.len() <= dst.data.len(),
    ensures
        discard_copied(src, dst).data.len() == dst.data.len(),
        discard_copied(src, dst).data.subrange(0, src.data.len() as int) == src.data,
        discard_copied(src, dst).tags == dst.tags,
{
    assert(discard_copied(src, dst).data.subrange(0, src.data.len() as int) =~= src.data);
}

/// After `migrate_tags`, each granule of the destination that the source
/// covers holds the source granule's tag and data.
pub proof fn lemma_preserving_copies_granules(src: RegionView, dst: RegionView)
    requires
        src.wf(),
        dst.wf(),
        src.data.len() % 16 == 0,
        src.data.len() <= dst.data.len(),
    ensures
        forall|g: int| 0 <= g < src.tags.len() ==> #[trigger] preserved_copy(src, dst).tags[g] == src.tags[g],
        forall|i: int| 0 <= i < src.data.len() ==> #[trigger] preserved_copy(src, dst).data[i] == src.data[i],
{
}

} // verus!
