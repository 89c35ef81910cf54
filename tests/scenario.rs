use mte_tags::engine::{stg, stg_zero};
use mte_tags::memory::TaggedMemory;
use mte_tags::migrate::migrate_tags;

#[test]
fn tag_zero_and_migrate_four_granules() {
    let data: Vec<u8> = (0..64u8).map(|i| i + 100).collect();
    let mut m = TaggedMemory::from_bytes(0x7000, data.clone()).unwrap();
    stg(&mut m, 7);
    for g in 0..4u64 {
        assert_eq!(m.load_tag(0x7000 + 16 * g), 7);
    }
    assert_eq!(m.bytes(), &data[..]);

    stg_zero(&mut m, 3);
    for g in 0..4u64 {
        assert_eq!(m.load_tag(0x7000 + 16 * g), 3);
    }
    assert!(m.bytes().iter().all(|b| *b == 0));

    let mut dst = TaggedMemory::new(0x9000, 64).unwrap();
    migrate_tags(&m, &mut dst);
    for g in 0..4u64 {
        assert_eq!(dst.load_tag(0x9000 + 16 * g), 3);
    }
    assert_eq!(dst.bytes(), m.bytes());
}
