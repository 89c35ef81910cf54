use mte_tags::codec::{address_of, get_tag, set_tag};

#[test]
fn set_tag_places_tag_in_top_byte() {
    assert_eq!(set_tag(0x1234_5678_9abc, 7), 0x0700_1234_5678_9abc);
}

#[test]
fn set_tag_masks_tag_and_clears_old_tag() {
    assert_eq!(set_tag(0xff00_1234_5678_9abc, 0x1f), 0x0f00_1234_5678_9abc);
    assert_eq!(set_tag(0x0500_0000_0000_1000, 0), 0x1000);
}

#[test]
fn get_tag_reads_bits_56_to_59() {
    assert_eq!(get_tag(0x0a00_0000_0000_0010), 10);
    assert_eq!(get_tag(0xf300_0000_0000_0010), 3);
    assert_eq!(get_tag(0x1000), 0);
}

#[test]
fn address_of_drops_top_16_bits() {
    assert_eq!(address_of(0xff00_0000_0000_1000), 0x1000);
    assert_eq!(address_of(0x0000_ffff_ffff_ffff), 0x0000_ffff_ffff_ffff);
}

#[test]
fn codec_round_trip() {
    for tag in 0..16u64 {
        let p = set_tag(0xabcd_ef01_2340, tag);
        assert_eq!(get_tag(p) as u64, tag);
        assert_eq!(address_of(p), 0xabcd_ef01_2340);
    }
}
