//! The tag write engine: operations that stamp one tag onto every granule of
//! a region, some of them zeroing its data as well.
use vstd::prelude::*;

use crate::codec::{address_limit, set_tag};
use crate::memory::{
    lemma_next_multiple, lemma_set_tags_adjacent, lemma_zero_bytes_adjacent, RegionView, TaggedMemory,
};

verus! {

/// The region with every granule tagged with the low 4 bits of `tag`.
pub open spec fn tagged(v: RegionView, tag: u64) -> RegionView {
    v.set_tags(0, v.tags.len() as int, tag as int % 16)
}

/// The region with every data byte zero.
pub open spec fn zeroed(v: RegionView) -> RegionView {
    v.zero_bytes(0, v.data.len() as int)
}

/// The region with every granule tagged with the low 4 bits of `tag` and
/// every data byte zero.
pub open spec fn tagged_zeroed(v: RegionView, tag: u64) -> RegionView {
    zeroed(tagged(v, tag))
}

/// Setting tags and zeroing bytes act on different parts of a region.
pub proof fn lemma_tags_and_bytes_commute(
    v: RegionView,
    first: int,
    count: int,
    tag: int,
    lo: int,
    hi: int,
)
    ensures
        v.zero_bytes(lo, hi).set_tags(first, count, tag) == v.set_tags(first, count, tag).zero_bytes(
            lo,
            hi,
        ),
{
}

/// Tags the granules from `start` up to `stop`, one granule at a time.
fn tag_range(mem: &mut TaggedMemory, tag: u64, start: u64, stop: u64)
    requires
        old(mem).wf(),
        old(mem)@.base <= start <= stop <= old(mem)@.base + old(mem)@.data.len(),
        (start - old(mem)@.base) % 16 == 0,
        (stop - old(mem)@.base) % 16 == 0,
    ensures
        final(mem).wf(),
        final(mem)@ == old(mem)@.set_tags(
            (start - old(mem)@.base) / 16,
            (stop - start) / 16,
            tag as int % 16,
        ),
{
    let ghost base = old(mem)@.base;
    let ghost first = (start - base) / 16;
    assert(old(mem)@.set_tags(first, 0, tag as int % 16).tags =~= old(mem)@.tags);
    let mut index = start;
    while index < stop
        invariant
            mem.wf(),
            old(mem).wf(),
            mem@.base == base,
            mem@.data.len() == old(mem)@.data.len(),
            base + mem@.data.len() <= address_limit(),
            first == (start - base) / 16,
            (start - base) % 16 == 0,
            (stop - base) % 16 == 0,
            base <= start <= index <= stop <= base + mem@.data.len(),
            (index - base) % 16 == 0,
            mem@ == old(mem)@.set_tags(first, (index - start) / 16, tag as int % 16),
        decreases stop - index,
    {
        let ptr = set_tag(index, tag);
        proof {
            lemma_set_tags_adjacent(old(mem)@, first, (index - start) / 16, 1, tag as int % 16);
            lemma_next_multiple(index - base, stop - base, 16);
        }
        mem.tag_granule(ptr);
        index = index + 16;
    }
}

/// Zeroes every data byte, writing through pointers tagged with `tag`.
fn zero_through(mem: &mut TaggedMemory, tag: u64)
    requires
        old(mem).wf(),
    ensures
        final(mem).wf(),
        final(mem)@ == zeroed(old(mem)@),
{
    let base = mem.base();
    let end = base + mem.len() as u64;
    assert(old(mem)@.zero_bytes(0, 0).data =~= old(mem)@.data);
    let mut index = base;
    while index < end
        invariant
            mem.wf(),
            old(mem).wf(),
            base == old(mem)@.base,
            end == base + old(mem)@.data.len(),
            end <= address_limit(),
            base <= index <= end,
            mem@ == old(mem)@.zero_bytes(0, index - base),
        decreases end - index,
    {
        proof {
            lemma_zero_bytes_adjacent(old(mem)@, 0, index - base, index - base + 1);
        }
        mem.write_byte(set_tag(index, tag), 0u8);
        index = index + 1;
        assert(mem@.data =~= old(mem)@.zero_bytes(0, index - base).data);
    }
}

/// Tags every granule of the region with `tag`, one granule per step; the
/// data is left as it is.
pub fn stg(mem: &mut TaggedMemory, tag: u64)
    requires
        old(mem).wf(),
        old(mem)@.data.len() % 16 == 0,
    ensures
        final(mem).wf(),
        final(mem)@ == tagged(old(mem)@, tag),
{
    let base = mem.base();
    tag_range(mem, tag, base, base + mem.len() as u64);
}

/// Tags every granule with `tag`, then zeroes the whole region through the
/// tagged pointer in a second pass.
pub fn stg_zero(mem: &mut TaggedMemory, tag: u64)
    requires
        old(mem).wf(),
        old(mem)@.data.len() % 16 == 0,
    ensures
        final(mem).wf(),
        final(mem)@ == tagged_zeroed(old(mem)@, tag),
{
    stg(mem, tag);
    zero_through(mem, tag);
}

/// Zeroes the whole region without tagging it.
pub fn memset(mem: &mut TaggedMemory)
    requires
        old(mem).wf(),
        old(mem)@.data.len() % 16 == 0,
    ensures
        final(mem).wf(),
        final(mem)@ == zeroed(old(mem)@),
{
    let base = mem.base();
    let end = base + mem.len() as u64;
    assert(old(mem)@.zero_bytes(0, 0).data =~= old(mem)@.data);
    let mut index = base;
    while index < end
        invariant
            mem.wf(),
            old(mem).wf(),
            base == old(mem)@.base,
            end == base + old(mem)@.data.len(),
            end <= address_limit(),
            base <= index <= end,
            mem@ == old(mem)@.zero_bytes(0, index - base),
        decreases end - index,
    {
        proof {
            lemma_zero_bytes_adjacent(old(mem)@, 0, index - base, index - base + 1);
        }
        mem.write_byte(index, 0u8);
        index = index + 1;
        assert(mem@.data =~= old(mem)@.zero_bytes(0, index - base).data);
    }
}

/// The size in bytes of the block that the zero-with-tags primitive clears,
/// as the cache-geometry register `dczid` describes it: 4 bytes shifted left
/// by its low 4 bits, or 0 where bit 4 prohibits the primitive.
pub open spec fn zero_block_bytes(dczid: u64) -> int {
    if dczid & 0x10 != 0 {
        0
    } else {
        (4u64 << (dczid & 0xf)) as int
    }
}

/// Reads the block size of the zero-with-tags primitive out of `dczid`.
pub fn zero_block_size(dczid: u64) -> (r: u64)
    ensures
        r == zero_block_bytes(dczid),
        r <= 0x20000,
        r >= 16 ==> r % 16 == 0,
{
    if dczid & 0x10 != 0 {
        0
    } else {
        assert(dczid & 0xf < 16) by (bit_vector);
        let r = 4u64 << (dczid & 0xf);
        assert((4u64 << (dczid & 0xf)) <= 0x20000) by (bit_vector);
        assert((4u64 << (dczid & 0xf)) >= 16 ==> (4u64 << (dczid & 0xf)) % 16 == 0)
            by (bit_vector);
        r
    }
}

/// The bulk path is taken where blocks hold whole granules and the region
/// spans at least two of them.
pub open spec fn bulk_applies(len: int, block: int) -> bool {
    block >= 16 && len >= 2 * block
}

/// The first block boundary strictly above `base`: where the bulk part starts.
pub open spec fn bulk_start(base: int, block: int) -> int {
    (base / block + 1) * block
}

/// The last block boundary at or below `end`: where the bulk part ends.
pub open spec fn bulk_end(end: int, block: int) -> int {
    (end / block) * block
}

/// The region after `stg_prefetch`: every granule tagged with `tag`, and,
/// where the bulk path is taken, the data of the whole blocks between the
/// head and the tail zeroed by the block primitive.
pub open spec fn prefetch_tagged(v: RegionView, tag: u64, dczid: u64) -> RegionView {
    let block = zero_block_bytes(dczid);
    if bulk_applies(v.data.len() as int, block) {
        tagged(v, tag).zero_bytes(
            bulk_start(v.base, block) - v.base,
            bulk_end(v.base + v.data.len(), block) - v.base,
        )
    } else {
        tagged(v, tag)
    }
}

/// Where the head, bulk and tail parts of a region lie.
proof fn lemma_bulk_bounds(base: int, len: int, block: int)
    requires
        0 <= base,
        base % 16 == 0,
        len % 16 == 0,
        block % 16 == 0,
        bulk_applies(len, block),
    ensures
        base < bulk_start(base, block) <= base + block,
        bulk_start(base, block) <= bulk_end(base + len, block) <= base + len,
        bulk_start(base, block) % block == 0,
        bulk_end(base + len, block) % block == 0,
        (bulk_start(base, block) - base) % 16 == 0,
        (bulk_end(base + len, block) - base) % 16 == 0,
{
    let end = base + len;
    let q = base / block;
    let p = end / block;
    let c = block / 16;
    vstd::arithmetic::div_mod::lemma_fundamental_div_mod(base, block);
    vstd::arithmetic::div_mod::lemma_fundamental_div_mod(end, block);
    vstd::arithmetic::div_mod::lemma_fundamental_div_mod(block, 16);
    assert((q + 1) * block == block * q + block) by (nonlinear_arith);
    assert(p * block == block * p) by (nonlinear_arith);
    vstd::arithmetic::div_mod::lemma_mod_multiples_basic(q + 1, block);
    vstd::arithmetic::div_mod::lemma_mod_multiples_basic(p, block);
    assert((q + 1) * block == 16 * ((q + 1) * c)) by (nonlinear_arith)
        requires
            block == 16 * c,
    ;
    assert(p * block == 16 * (p * c)) by (nonlinear_arith)
        requires
            block == 16 * c,
    ;
    vstd::arithmetic::div_mod::lemma_mod_multiples_basic((q + 1) * c, 16);
    vstd::arithmetic::div_mod::lemma_mod_multiples_basic(p * c, 16);
    vstd::arithmetic::div_mod::lemma_sub_mod_noop(p * block, base, 16);
    vstd::arithmetic::div_mod::lemma_sub_mod_noop((q + 1) * block, base, 16);
}

/// Tags every granule with `tag` like `stg`, but clears whole blocks with the
/// zero-with-tags primitive where it can: the head up to the first block
/// boundary one granule at a time, then every whole block, then the tail one
/// granule at a time. `dczid` is the platform's cache-geometry register.
pub fn stg_prefetch(mem: &mut TaggedMemory, tag: u64, dczid: u64)
    requires
        old(mem).wf(),
        old(mem)@.data.len() % 16 == 0,
    ensures
        final(mem).wf(),
        final(mem)@ == prefetch_tagged(old(mem)@, tag, dczid),
{
    let block = zero_block_size(dczid);
    let base = mem.base();
    let len = mem.len() as u64;
    let end = base + len;
    let ghost t = tag as int % 16;
    let ghost n = old(mem)@.tags.len() as int;
    if block >= 16 && len >= 2 * block {
        proof {
            lemma_bulk_bounds(base as int, len as int, block as int);
        }
        let head_end = (base / block + 1) * block;
        let tail_start = end / block * block;
        tag_range(mem, tag, base, head_end);
        let ghost head = mem@;
        let ghost lo = head_end - base;
        assert(head.zero_bytes(lo, lo).data =~= head.data);
        let mut index = head_end;
        let ghost mut g: int = (head_end - base) / 16;
        let ghost c: int = block as int / 16;
        proof {
            vstd::arithmetic::div_mod::lemma_fundamental_div_mod(block as int, 16);
            vstd::arithmetic::div_mod::lemma_fundamental_div_mod(head_end - base, 16);
        }
        while index < tail_start
            invariant
                mem.wf(),
                old(mem).wf(),
                mem@.base == base,
                mem@.data.len() == len,
                base + len <= address_limit(),
                16 <= block,
                block == 16 * c,
                t == tag as int % 16,
                lo == head_end - base,
                base <= head_end <= index <= tail_start <= end,
                end == base + len,
                index as int % (block as int) == 0,
                tail_start as int % (block as int) == 0,
                index - base == 16 * g,
                mem@ == old(mem)@.set_tags(0, g, t).zero_bytes(lo, index - base),
            decreases tail_start - index,
        {
            proof {
                lemma_next_multiple(index as int, tail_start as int, block as int);
                vstd::arithmetic::div_mod::lemma_div_by_multiple(g, 16);
                vstd::arithmetic::div_mod::lemma_div_by_multiple(c, 16);
                vstd::arithmetic::div_mod::lemma_mod_multiples_basic(g, 16);
                vstd::arithmetic::div_mod::lemma_mod_add_multiples_vanish(index as int, block as int);
                lemma_tags_and_bytes_commute(old(mem)@.set_tags(0, g, t), g, c, t, lo, index - base);
                lemma_set_tags_adjacent(old(mem)@, 0, g, c, t);
                lemma_zero_bytes_adjacent(
                    old(mem)@.set_tags(0, g + c, t),
                    lo,
                    index - base,
                    index - base + block,
                );
            }
            let ptr = set_tag(index, tag);
            mem.zero_block_with_tag(ptr, block);
            index = index + block;
            proof {
                g = g + c;
            }
        }
        proof {
            vstd::arithmetic::div_mod::lemma_div_by_multiple(g, 16);
            vstd::arithmetic::div_mod::lemma_mod_multiples_basic(g, 16);
        }
        let ghost hi = tail_start - base;
        tag_range(mem, tag, tail_start, end);
        proof {
            lemma_tags_and_bytes_commute(old(mem)@.set_tags(0, g, t), g, n - g, t, lo, hi);
            lemma_set_tags_adjacent(old(mem)@, 0, g, n - g, t);
        }
    } else {
        tag_range(mem, tag, base, end);
    }
}

/// Tags every granule with `tag`, two adjacent granules per step; the data
/// is left as it is.
pub fn st2g(mem: &mut TaggedMemory, tag: u64)
    requires
        old(mem).wf(),
        old(mem)@.data.len() % 32 == 0,
    ensures
        final(mem).wf(),
        final(mem)@ == tagged(old(mem)@, tag),
{
    let base = mem.base();
    let end = base + mem.len() as u64;
    let ghost t = tag as int % 16;
    let ghost mut h: int = 0;
    assert(old(mem)@.set_tags(0, 0, t).tags =~= old(mem)@.tags);
    let mut index = base;
    while index < end
        invariant
            mem.wf(),
            old(mem).wf(),
            t == tag as int % 16,
            mem@.base == base,
            mem@.data.len() == old(mem)@.data.len(),
            end == base + old(mem)@.data.len(),
            end <= address_limit(),
            (end - base) % 32 == 0,
            base <= index <= end,
            index - base == 32 * h,
            mem@ == old(mem)@.set_tags(0, 2 * h, t),
        decreases end - index,
    {
        proof {
            vstd::arithmetic::div_mod::lemma_mod_multiples_basic(h, 32);
            lemma_next_multiple(index - base, end - base, 32);
            lemma_set_tags_adjacent(old(mem)@, 0, 2 * h, 2, t);
        }
        mem.tag_granule_pair(set_tag(index, tag));
        index = index + 32;
        proof {
            h = h + 1;
        }
    }
}

/// Tags every granule with `tag` two at a time, then zeroes the whole region
/// through the tagged pointer in a second pass.
pub fn st2g_zero(mem: &mut TaggedMemory, tag: u64)
    requires
        old(mem).wf(),
        old(mem)@.data.len() % 32 == 0,
    ensures
        final(mem).wf(),
        final(mem)@ == tagged_zeroed(old(mem)@, tag),
{
    st2g(mem, tag);
    zero_through(mem, tag);
}

/// Tags every granule with `tag` and zeroes its data, one granule per step.
pub fn stzg(mem: &mut TaggedMemory, tag: u64)
    requires
        old(mem).wf(),
        old(mem)@.data.len() % 16 == 0,
    ensures
        final(mem).wf(),
        final(mem)@ == tagged_zeroed(old(mem)@, tag),
{
    let base = mem.base();
    let end = base + mem.len() as u64;
    let ghost t = tag as int % 16;
    let ghost mut g: int = 0;
    assert(old(mem)@.set_tags(0, 0, t).zero_bytes(0, 0) =~= old(mem)@) by {
        assert(old(mem)@.set_tags(0, 0, t).tags =~= old(mem)@.tags);
        assert(old(mem)@.zero_bytes(0, 0).data =~= old(mem)@.data);
    }
    let mut index = base;
    while index < end
        invariant
            mem.wf(),
            old(mem).wf(),
            t == tag as int % 16,
            mem@.base == base,
            mem@.data.len() == old(mem)@.data.len(),
            end == base + old(mem)@.data.len(),
            end <= address_limit(),
            (end - base) % 16 == 0,
            base <= index <= end,
            index - base == 16 * g,
            mem@ == old(mem)@.set_tags(0, g, t).zero_bytes(0, index - base),
        decreases end - index,
    {
        proof {
            vstd::arithmetic::div_mod::lemma_mod_multiples_basic(g, 16);
            vstd::arithmetic::div_mod::lemma_div_by_multiple(g, 16);
            lemma_next_multiple(index - base, end - base, 16);
            lemma_tags_and_bytes_commute(old(mem)@.set_tags(0, g, t), g, 1, t, 0, index - base);
            lemma_set_tags_adjacent(old(mem)@, 0, g, 1, t);
            lemma_zero_bytes_adjacent(
                old(mem)@.set_tags(0, g + 1, t),
                0,
                index - base,
                index - base + 16,
            );
        }
        mem.tag_and_zero_granule(set_tag(index, tag));
        index = index + 16;
        proof {
            g = g + 1;
        }
    }
}

/// Tags every granule with `tag` and zeroes its data, two granules per step.
pub fn stz2g(mem: &mut TaggedMemory, tag: u64)
    requires
        old(mem).wf(),
        old(mem)@.data.len() % 32 == 0,
    ensures
        final(mem).wf(),
        final(mem)@ == tagged_zeroed(old(mem)@, tag),
{
    let base = mem.base();
    let end = base + mem.len() as u64;
    let ghost t = tag as int % 16;
    let ghost mut h: int = 0;
    assert(old(mem)@.set_tags(0, 0, t).zero_bytes(0, 0) =~= old(mem)@) by {
        assert(old(mem)@.set_tags(0, 0, t).tags =~= old(mem)@.tags);
        assert(old(mem)@.zero_bytes(0, 0).data =~= old(mem)@.data);
    }
    let mut index = base;
    while index < end
        invariant
            mem.wf(),
            old(mem).wf(),
            t == tag as int % 16,
            mem@.base == base,
            mem@.data.len() == old(mem)@.data.len(),
            end == base + old(mem)@.data.len(),
            end <= address_limit(),
            (end - base) % 32 == 0,
            base <= index <= end,
            index - base == 32 * h,
            mem@ == old(mem)@.set_tags(0, 2 * h, t).zero_bytes(0, index - base),
        decreases end - index,
    {
        proof {
            vstd::arithmetic::div_mod::lemma_mod_multiples_basic(h, 32);
            lemma_next_multiple(index - base, end - base, 32);
            lemma_tags_and_bytes_commute(old(mem)@.set_tags(0, 2 * h, t), 2 * h, 2, t, 0, index - base);
            lemma_set_tags_adjacent(old(mem)@, 0, 2 * h, 2, t);
            lemma_zero_bytes_adjacent(
                old(mem)@.set_tags(0, 2 * h + 2, t),
                0,
                index - base,
                index - base + 32,
            );
        }
        mem.tag_and_zero_granule_pair(set_tag(index, tag));
        index = index + 32;
        proof {
            h = h + 1;
        }
    }
}

/// Sixteen zero bytes: the data that `stgp` stores with each tag.
fn zero_granule() -> (r: Vec<u8>)
    ensures
        r@ == Seq::new(16, |i: int| 0u8),
{
    let mut r: Vec<u8> = Vec::new();
    while r.len() < 16
        invariant
            r@.len() <= 16,
            forall|i: int| 0 <= i < r@.len() ==> #[trigger] r@[i] == 0u8,
        decreases 16 - r@.len(),
    {
        r.push(0u8);
    }
    assert(r@ =~= Seq::new(16, |i: int| 0u8));
    r
}

/// Tags every granule with `tag` and stores zero data in the same step, so
/// that no granule ever holds the new tag over old data.
pub fn stgp(mem: &mut TaggedMemory, tag: u64)
    requires
        old(mem).wf(),
        old(mem)@.data.len() % 16 == 0,
    ensures
        final(mem).wf(),
        final(mem)@ == tagged_zeroed(old(mem)@, tag),
{
    let zero = zero_granule();
    let base = mem.base();
    let end = base + mem.len() as u64;
    let ghost t = tag as int % 16;
    let ghost mut g: int = 0;
    assert(old(mem)@.set_tags(0, 0, t).zero_bytes(0, 0) =~= old(mem)@) by {
        assert(old(mem)@.set_tags(0, 0, t).tags =~= old(mem)@.tags);
        assert(old(mem)@.zero_bytes(0, 0).data =~= old(mem)@.data);
    }
    let mut index = base;
    while index < end
        invariant
            mem.wf(),
            old(mem).wf(),
            zero@ == Seq::new(16, |i: int| 0u8),
            t == tag as int % 16,
            mem@.base == base,
            mem@.data.len() == old(mem)@.data.len(),
            end == base + old(mem)@.data.len(),
            end <= address_limit(),
            (end - base) % 16 == 0,
            base <= index <= end,
            index - base == 16 * g,
            mem@ == old(mem)@.set_tags(0, g, t).zero_bytes(0, index - base),
        decreases end - index,
    {
        let ghost before = mem@;
        let ghost off = index - base;
        proof {
            vstd::arithmetic::div_mod::lemma_mod_multiples_basic(g, 16);
            vstd::arithmetic::div_mod::lemma_div_by_multiple(g, 16);
            lemma_next_multiple(index - base, end - base, 16);
            lemma_tags_and_bytes_commute(old(mem)@.set_tags(0, g, t), g, 1, t, 0, off);
            lemma_set_tags_adjacent(old(mem)@, 0, g, 1, t);
            lemma_zero_bytes_adjacent(old(mem)@.set_tags(0, g + 1, t), 0, off, off + 16);
        }
        mem.tag_and_store_granule(set_tag(index, tag), zero.as_slice());
        assert(mem@.data =~= before.set_tags(g, 1, t).zero_bytes(off, off + 16).data);
        index = index + 16;
        proof {
            g = g + 1;
        }
    }
}

} // verus!
