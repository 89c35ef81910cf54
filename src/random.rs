//! Stamping a varying sequence of tags across a region, as the hardware's
//! tag-offset instruction produces it under the included-tags mask.
use vstd::prelude::*;

use crate::codec::{address_limit, set_tag};
use crate::memory::{lemma_next_multiple, RegionView, TaggedMemory};
use crate::mode::MteControl;

verus! {

/// Tag `t` is among those that the mask `included` lets the hardware generate.
pub open spec fn tag_included(included: u64, t: u64) -> bool {
    (included >> t) & 1 == 1
}

/// Counting up from `t` modulo 16, the first tag that `included` admits,
/// looking at no more than `fuel + 1` tags.
pub open spec fn first_included(t: u64, included: u64, fuel: nat) -> u64
    decreases fuel,
{
    if fuel == 0 || tag_included(included, t) {
        t
    } else {
        first_included(((t + 1) % 16) as u64, included, (fuel - 1) as nat)
    }
}

/// The tag that follows `t`: the next admitted tag above it, modulo 16, or 0
/// where the mask admits none.
pub open spec fn next_tag_of(t: u64, included: u64) -> u64 {
    if included == 0 {
        0
    } else {
        first_included(((t + 1) % 16) as u64, included, 15)
    }
}

/// The tag that `set_tags_random` gives granule `i`: 0 for the first, and
/// each next one derived from the one before.
pub open spec fn tag_sequence(i: nat, included: u64) -> u64
    decreases i,
{
    if i == 0 {
        0
    } else {
        next_tag_of(tag_sequence((i - 1) as nat, included), included)
    }
}

/// The region after `set_tags_random`.
pub open spec fn randomized(v: RegionView, included: u64) -> RegionView {
    RegionView {
        tags: Seq::new(v.tags.len(), |g: int| tag_sequence(g as nat, included) as u8),
        ..v
    }
}

proof fn lemma_first_included_bound(t: u64, included: u64, fuel: nat)
    requires
        t < 16,
    ensures
        first_included(t, included, fuel) < 16,
    decreases fuel,
{
    if fuel > 0 && !tag_included(included, t) {
        lemma_first_included_bound(((t + 1) % 16) as u64, included, (fuel - 1) as nat);
    }
}

/// Every tag of the sequence is 4 bits wide.
pub proof fn lemma_tag_sequence_bound(i: nat, included: u64)
    ensures
        tag_sequence(i, included) < 16,
    decreases i,
{
    if i > 0 {
        lemma_tag_sequence_bound((i - 1) as nat, included);
        lemma_first_included_bound(
            ((tag_sequence((i - 1) as nat, included) + 1) % 16) as u64,
            included,
            15,
        );
    }
}

/// How many steps the walk of `first_included` takes before it stops.
spec fn included_steps(s: u64, included: u64, fuel: nat) -> nat
    decreases fuel,
{
    if fuel == 0 || tag_included(included, s) {
        0
    } else {
        1 + included_steps(((s + 1) % 16) as u64, included, (fuel - 1) as nat)
    }
}

/// The walk of `first_included` stops at the first admitted tag it meets:
/// where `j` steps from `s` reach an admitted tag within the fuel, the walk
/// takes at most `j` steps.
proof fn lemma_first_included_within(s: u64, included: u64, fuel: nat, j: nat)
    requires
        s < 16,
        j <= fuel,
        tag_included(included, ((s + j) % 16) as u64),
    ensures
        included_steps(s, included, fuel) <= j,
        first_included(s, included, fuel) == ((s + included_steps(s, included, fuel)) % 16) as u64,
    decreases fuel,
{
    if fuel == 0 || tag_included(included, s) {
    } else {
        if j == 0 {
            assert(((s + j) % 16) as u64 == s);
        }
        let s2 = ((s + 1) % 16) as u64;
        vstd::arithmetic::div_mod::lemma_add_mod_noop(s + 1, (j - 1) as int, 16);
        vstd::arithmetic::div_mod::lemma_mod_twice(s + 1, 16);
        assert(((s2 + (j - 1)) % 16) as u64 == ((s + j) % 16) as u64);
        lemma_first_included_within(s2, included, (fuel - 1) as nat, (j - 1) as nat);
        let k2 = included_steps(s2, included, (fuel - 1) as nat);
        vstd::arithmetic::div_mod::lemma_add_mod_noop(s + 1, k2 as int, 16);
    }
}

/// Where the mask admits a tag other than `t`, the tag that follows `t` is
/// not `t`.
pub proof fn lemma_next_tag_differs(t: u64, u: u64, included: u64)
    requires
        t < 16,
        u < 16,
        u != t,
        tag_included(included, u),
    ensures
        next_tag_of(t, included) != t,
{
    assert(included != 0) by {
        if included == 0 {
            assert((0u64 >> u) & 1 == 0) by (bit_vector);
        }
    }
    let s = ((t + 1) % 16) as u64;
    let j: nat = if u > t {
        (u - t - 1) as nat
    } else {
        (u + 15 - t) as nat
    };
    assert(((s + j) % 16) as u64 == u);
    lemma_first_included_within(s, included, 15, j);
    let k = included_steps(s, included, 15);
    assert(((s + k) % 16) as u64 != t);
}

/// The tag that follows `tag` under the included-tags mask `included`.
pub fn next_tag(tag: u64, included: u64) -> (r: u64)
    requires
        tag < 16,
    ensures
        r == next_tag_of(tag, included),
        r < 16,
{
    if included == 0 {
        return 0;
    }
    let mut t = (tag + 1) % 16;
    let mut fuel: u64 = 15;
    proof {
        lemma_first_included_bound(t, included, 15);
    }
    while fuel > 0 && (included >> t) & 1 != 1
        invariant
            t < 16,
            fuel <= 15,
            first_included(t, included, fuel as nat) == next_tag_of(tag, included),
            included != 0,
            tag < 16,
        decreases fuel,
    {
        t = (t + 1) % 16;
        fuel = fuel - 1;
    }
    proof {
        lemma_first_included_bound(((tag + 1) % 16) as u64, included, 15);
    }
    t
}

/// Tags the granules one after another with the tag sequence that starts at
/// 0 and advances by one admitted tag per granule, under the included-tags
/// mask that `control` holds.
pub fn set_tags_random(mem: &mut TaggedMemory, control: &MteControl)
    requires
        old(mem).wf(),
        old(mem)@.data.len() % 16 == 0,
    ensures
        final(mem).wf(),
        final(mem)@ == randomized(old(mem)@, control@.included_tags as u64),
{
    let included = control.included_tags();
    let base = mem.base();
    let end = base + mem.len() as u64;
    let mut tag: u64 = 0;
    let ghost mut g: int = 0;
    let mut index = base;
    while index < end
        invariant
            mem.wf(),
            old(mem).wf(),
            mem@.base == base,
            mem@.data == old(mem)@.data,
            mem@.tags.len() == old(mem)@.tags.len(),
            end == base + old(mem)@.data.len(),
            end <= address_limit(),
            (end - base) % 16 == 0,
            base <= index <= end,
            index - base == 16 * g,
            tag == tag_sequence(g as nat, included),
            forall|k: int| 0 <= k < g ==> mem@.tags[k] == tag_sequence(k as nat, included) as u8,
            forall|k: int| g <= k < mem@.tags.len() ==> mem@.tags[k] == old(mem)@.tags[k],
        decreases end - index,
    {
        proof {
            vstd::arithmetic::div_mod::lemma_mod_multiples_basic(g, 16);
            vstd::arithmetic::div_mod::lemma_div_by_multiple(g, 16);
            lemma_next_multiple(index - base, end - base, 16);
            lemma_tag_sequence_bound(g as nat, included);
        }
        mem.tag_granule(set_tag(index, tag));
        tag = next_tag(tag, included);
        index = index + 16;
        proof {
            g = g + 1;
        }
    }
    assert(mem@.tags =~= randomized(old(mem)@, included).tags);
}

} // verus!
