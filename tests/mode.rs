use mte_tags::mode::{set_mte_mode, set_mte_mode_tags, MTEMode, MteControl};

#[test]
fn mode_masks() {
    assert_eq!(MTEMode::Off.mask(), 0);
    assert_eq!(MTEMode::Sync.mask(), 2);
    assert_eq!(MTEMode::Async.mask(), 4);
}

#[test]
fn new_control_has_checking_off_and_no_tags() {
    let c = MteControl::new();
    assert_eq!(c.mode(), MTEMode::Off);
    assert_eq!(c.included_tags(), 0);
    assert_eq!(c.control_word(), 1);
}

#[test]
fn set_mode_includes_every_tag() {
    let mut c = MteControl::new();
    assert_eq!(set_mte_mode(&mut c, MTEMode::Sync), 0x7fffb);
    assert_eq!(c.mode(), MTEMode::Sync);
    assert_eq!(c.included_tags(), 0xffff);
    assert_eq!(set_mte_mode(&mut c, MTEMode::Async), 0x7fffd);
    assert_eq!(set_mte_mode(&mut c, MTEMode::Off), 0x7fff9);
    assert_eq!(c.control_word(), 0x7fff9);
}

#[test]
fn set_mode_with_tags_installs_mask() {
    let mut c = MteControl::new();
    assert_eq!(set_mte_mode_tags(&mut c, MTEMode::Off, 0xfffe), 0x7fff1);
    assert_eq!(c.included_tags(), 0xfffe);
    assert_eq!(set_mte_mode_tags(&mut c, MTEMode::Sync, 0), 3);
    assert_eq!(c.mode(), MTEMode::Sync);
    assert_eq!(c.included_tags(), 0);
}
