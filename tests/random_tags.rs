use mte_tags::memory::TaggedMemory;
use mte_tags::mode::{set_mte_mode, set_mte_mode_tags, MTEMode, MteControl};
use mte_tags::random::{next_tag, set_tags_random};

#[test]
fn next_tag_with_every_tag_included() {
    assert_eq!(next_tag(3, 0xffff), 4);
    assert_eq!(next_tag(15, 0xffff), 0);
}

#[test]
fn next_tag_skips_excluded_tags() {
    assert_eq!(next_tag(0, 0xfffe), 1);
    assert_eq!(next_tag(15, 0xfffe), 1);
    assert_eq!(next_tag(2, 0b1001), 3);
    assert_eq!(next_tag(3, 0b1001), 0);
}

#[test]
fn next_tag_with_one_or_no_tag_included() {
    assert_eq!(next_tag(5, 1 << 5), 5);
    assert_eq!(next_tag(9, 1 << 5), 5);
    assert_eq!(next_tag(5, 0), 0);
}

#[test]
fn random_tags_count_up_with_every_tag() {
    let mut c = MteControl::new();
    set_mte_mode(&mut c, MTEMode::Sync);
    let mut m = TaggedMemory::new(0x4000, 20 * 16).unwrap();
    set_tags_random(&mut m, &c);
    for g in 0..20 {
        assert_eq!(m.granule_tag(g), (g % 16) as u8);
    }
    for g in 0..19 {
        assert_ne!(m.granule_tag(g), m.granule_tag(g + 1));
    }
}

#[test]
fn random_tags_skip_excluded_zero() {
    let mut c = MteControl::new();
    set_mte_mode_tags(&mut c, MTEMode::Sync, 0xfffe);
    let mut m = TaggedMemory::new(0x4000, 18 * 16).unwrap();
    set_tags_random(&mut m, &c);
    let expected: Vec<u8> = vec![0, 1, 2, 3, 4, 5, 6, 7, 8, 9, 10, 11, 12, 13, 14, 15, 1, 2];
    for g in 0..18 {
        assert_eq!(m.granule_tag(g), expected[g]);
    }
}

#[test]
fn random_tags_with_no_tag_included_are_zero() {
    let c = MteControl::new();
    let mut m = TaggedMemory::new(0x4000, 64).unwrap();
    mte_tags::engine::stg(&mut m, 9);
    set_tags_random(&mut m, &c);
    for g in 0..4 {
        assert_eq!(m.granule_tag(g), 0);
    }
}

#[test]
fn random_tags_leave_data() {
    let c = MteControl::new();
    let data: Vec<u8> = (0..48u8).collect();
    let mut m = TaggedMemory::from_bytes(0x4000, data.clone()).unwrap();
    set_tags_random(&mut m, &c);
    assert_eq!(m.bytes(), &data[..]);
}

#[test]
fn random_tags_alternate_between_two_included_tags() {
    let mut c = MteControl::new();
    set_mte_mode_tags(&mut c, MTEMode::Async, 0b1001);
    let mut m = TaggedMemory::new(0x4000, 6 * 16).unwrap();
    set_tags_random(&mut m, &c);
    let expected: Vec<u8> = vec![0, 3, 0, 3, 0, 3];
    for g in 0..6 {
        assert_eq!(m.granule_tag(g), expected[g]);
    }
}

#[test]
fn random_tags_repeat_single_included_tag() {
    let mut c = MteControl::new();
    set_mte_mode_tags(&mut c, MTEMode::Sync, 1 << 5);
    let mut m = TaggedMemory::new(0x4000, 4 * 16).unwrap();
    set_tags_random(&mut m, &c);
    let expected: Vec<u8> = vec![0, 5, 5, 5];
    for g in 0..4 {
        assert_eq!(m.granule_tag(g), expected[g]);
    }
}
