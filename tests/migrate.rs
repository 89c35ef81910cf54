use mte_tags::engine::stg;
use mte_tags::memory::TaggedMemory;
use mte_tags::migrate::{migrate_mte_off, migrate_tags};
use mte_tags::mode::{set_mte_mode, MTEMode, MteControl};
use mte_tags::random::set_tags_random;

fn pattern(len: usize, seed: u8) -> Vec<u8> {
    (0..len).map(|i| (i as u8).wrapping_mul(7).wrapping_add(seed)).collect()
}

#[test]
fn discard_copies_data_and_keeps_destination_tags() {
    let mut c = MteControl::new();
    let src_data = pattern(64, 1);
    let mut src = TaggedMemory::from_bytes(0x10000, src_data.clone()).unwrap();
    stg(&mut src, 9);
    let dst_data = pattern(96, 50);
    let mut dst = TaggedMemory::from_bytes(0x20000, dst_data.clone()).unwrap();
    stg(&mut dst, 4);
    migrate_mte_off(&mut c, &src, &mut dst);
    assert_eq!(&dst.bytes()[..64], &src_data[..]);
    assert_eq!(&dst.bytes()[64..], &dst_data[64..]);
    for g in 0..6 {
        assert_eq!(dst.granule_tag(g), 4);
    }
    assert_eq!(c.mode(), MTEMode::Sync);
    assert_eq!(c.included_tags(), 0xffff);
}

#[test]
fn preserving_copies_tags_and_data() {
    let mut c = MteControl::new();
    set_mte_mode(&mut c, MTEMode::Sync);
    let src_data = pattern(80, 3);
    let mut src = TaggedMemory::from_bytes(0x10000, src_data.clone()).unwrap();
    set_tags_random(&mut src, &c);
    let dst_data = pattern(128, 90);
    let mut dst = TaggedMemory::from_bytes(0x30010, dst_data.clone()).unwrap();
    stg(&mut dst, 15);
    migrate_tags(&src, &mut dst);
    for g in 0..5 {
        assert_eq!(dst.granule_tag(g), g as u8);
    }
    for g in 5..8 {
        assert_eq!(dst.granule_tag(g), 15);
    }
    assert_eq!(&dst.bytes()[..80], &src_data[..]);
    assert_eq!(&dst.bytes()[80..], &dst_data[80..]);
}

#[test]
fn preserving_copy_of_empty_region_changes_nothing() {
    let src = TaggedMemory::new(0x10000, 0).unwrap();
    let dst_data = pattern(32, 5);
    let mut dst = TaggedMemory::from_bytes(0x20000, dst_data.clone()).unwrap();
    migrate_tags(&src, &mut dst);
    assert_eq!(dst.bytes(), &dst_data[..]);
    assert_eq!(dst.granule_tag(0), 0);
}
