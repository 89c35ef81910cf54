use mte_tags::codec::set_tag;
use mte_tags::engine::{
    memset, st2g, st2g_zero, stg, stg_prefetch, stg_zero, stgp, stz2g, stzg, zero_block_size,
};
use mte_tags::memory::TaggedMemory;

fn pattern(len: usize) -> Vec<u8> {
    (0..len).map(|i| (i % 251) as u8 + 1).collect()
}

fn region(base: u64, len: usize) -> TaggedMemory {
    TaggedMemory::from_bytes(base, pattern(len)).unwrap()
}

fn all_tags(m: &TaggedMemory, tag: u8) -> bool {
    (0..m.granules()).all(|g| m.granule_tag(g) == tag)
}

#[test]
fn stg_tags_every_granule_and_keeps_data() {
    let mut m = region(0x10000, 128);
    stg(&mut m, 5);
    assert!(all_tags(&m, 5));
    assert_eq!(m.bytes(), &pattern(128)[..]);
    for off in (0..128u64).step_by(16) {
        assert_eq!(m.load_tag(0x10000 + off), 5);
    }
}

#[test]
fn stg_masks_tag_to_four_bits() {
    let mut m = region(0x10000, 32);
    stg(&mut m, 0x1c);
    assert!(all_tags(&m, 0xc));
}

#[test]
fn stg_twice_equals_once() {
    let mut a = region(0x10000, 64);
    stg(&mut a, 11);
    let mut b = region(0x10000, 64);
    stg(&mut b, 11);
    stg(&mut b, 11);
    assert_eq!(a.bytes(), b.bytes());
    for g in 0..4 {
        assert_eq!(a.granule_tag(g), b.granule_tag(g));
    }
}

#[test]
fn stg_on_empty_region() {
    let mut m = region(0x10000, 0);
    stg(&mut m, 3);
    assert_eq!(m.granules(), 0);
    assert_eq!(m.len(), 0);
}

#[test]
fn st2g_tags_every_granule() {
    let mut m = region(0x20000, 96);
    st2g(&mut m, 9);
    assert!(all_tags(&m, 9));
    assert_eq!(m.bytes(), &pattern(96)[..]);
}

#[test]
fn zeroing_variants_zero_and_tag() {
    let ops: Vec<fn(&mut TaggedMemory, u64)> = vec![stg_zero, st2g_zero, stzg, stz2g, stgp];
    for op in ops {
        let mut m = region(0x30000, 64);
        op(&mut m, 6);
        assert!(all_tags(&m, 6));
        assert!(m.bytes().iter().all(|b| *b == 0));
    }
}

#[test]
fn memset_zeroes_and_keeps_tags() {
    let mut m = region(0x30000, 64);
    stg(&mut m, 4);
    memset(&mut m);
    assert!(all_tags(&m, 4));
    assert!(m.bytes().iter().all(|b| *b == 0));
}

#[test]
fn zero_block_size_reads_register() {
    assert_eq!(zero_block_size(4), 64);
    assert_eq!(zero_block_size(2), 16);
    assert_eq!(zero_block_size(0), 4);
    assert_eq!(zero_block_size(0x14), 0);
    assert_eq!(zero_block_size(0xf), 0x20000);
}

#[test]
fn prefetch_aligned_region_zeroes_interior_blocks() {
    let mut m = region(0x1000, 256);
    stg_prefetch(&mut m, 7, 4);
    assert!(all_tags(&m, 7));
    let p = pattern(256);
    assert_eq!(&m.bytes()[..64], &p[..64]);
    assert!(m.bytes()[64..].iter().all(|b| *b == 0));
}

#[test]
fn prefetch_unaligned_region_has_head_and_tail() {
    let mut m = region(0x1010, 256);
    stg_prefetch(&mut m, 2, 4);
    assert!(all_tags(&m, 2));
    let p = pattern(256);
    assert_eq!(&m.bytes()[..48], &p[..48]);
    assert!(m.bytes()[48..240].iter().all(|b| *b == 0));
    assert_eq!(&m.bytes()[240..], &p[240..]);
}

#[test]
fn prefetch_falls_back_when_short_or_prohibited() {
    for (len, dczid) in [(64usize, 4u64), (112, 4), (256, 0x14), (256, 0), (256, 1)] {
        let mut m = region(0x1000, len);
        stg_prefetch(&mut m, 12, dczid);
        assert!(all_tags(&m, 12));
        assert_eq!(m.bytes(), &pattern(len)[..]);
    }
}

#[test]
fn prefetch_tags_match_stg_across_lengths() {
    for base in [0x2000u64, 0x2010, 0x2030] {
        for granules in 0..40usize {
            let mut a = region(base, granules * 16);
            let mut b = region(base, granules * 16);
            stg_prefetch(&mut a, 13, 4);
            stg(&mut b, 13);
            for g in 0..granules {
                assert_eq!(a.granule_tag(g), b.granule_tag(g));
            }
        }
    }
}

#[test]
fn region_constructors_check_alignment_and_range() {
    assert!(TaggedMemory::new(0x1001, 16).is_none());
    assert!(TaggedMemory::new(0xffff_ffff_fff0, 32).is_none());
    assert!(TaggedMemory::new(0xffff_ffff_fff0, 16).is_some());
    assert!(TaggedMemory::from_bytes(set_tag(0x1000, 3), vec![0u8; 16]).is_none());
    let m = TaggedMemory::new(0x1000, 40).unwrap();
    assert_eq!(m.granules(), 3);
    assert_eq!(m.base(), 0x1000);
    assert!(m.bytes().iter().all(|b| *b == 0));
}

#[test]
fn load_tag_ignores_pointer_tag_and_offset() {
    let mut m = region(0x5000, 64);
    stg(&mut m, 8);
    assert_eq!(m.load_tag(set_tag(0x5000 + 37, 1)), 8);
}
