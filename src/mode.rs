//! The process-wide tag-check-fault mode and the set of tags that random tag
//! generation may produce, held in an explicit context object.
use vstd::prelude::*;

verus! {

/// In which mode tag checking is enabled.
#[derive(Clone, Copy, Debug, PartialEq, Eq, Structural)]
pub enum MTEMode {
    /// Ignore tag check faults.
    Off,
    /// Synchronous tag check fault mode.
    Sync,
    /// Asynchronous tag check fault mode.
    Async,
}

/// The bit that enables the tagged address ABI in the control word.
pub const TAGGED_ADDR_ENABLE: u64 = 1;

/// The position of the tag-check-fault field in the control word.
pub const TCF_SHIFT: u64 = 1;

/// The position of the included-tags mask in the control word.
pub const INCLUDED_TAGS_SHIFT: u64 = 3;

/// The included-tags mask under which every tag may be generated.
pub const ALL_TAGS: u64 = 0xffff;

/// The tag-check-fault field of the control word for `mode`.
pub open spec fn mode_bits(mode: MTEMode) -> int {
    match mode {
        MTEMode::Off => 0,
        MTEMode::Sync => 2,
        MTEMode::Async => 4,
    }
}

impl MTEMode {
    /// The tag-check-fault field of the control word for this mode.
    pub fn mask(&self) -> (r: u64)
        ensures
            r == mode_bits(*self),
    {
        assert(1u64 << 1u64 == 2 && 2u64 << 1u64 == 4) by (bit_vector);
        match self {
            MTEMode::Off => 0,
            MTEMode::Sync => 1u64 << TCF_SHIFT,
            MTEMode::Async => 2u64 << TCF_SHIFT,
        }
    }
}

/// The control word that installs `mode` with the included-tags mask
/// `included`: the enable bit, the fault mode, and the mask from bit 3 on.
pub open spec fn control_word(mode: MTEMode, included: int) -> int {
    1 + mode_bits(mode) + included * 8
}

/// The process-wide tagging state: fault mode and included-tags mask.
pub struct MteControl {
    mode: MTEMode,
    included_tags: u64,
}

/// The abstract state of an `MteControl`.
pub struct ControlView {
    pub mode: MTEMode,
    /// The included-tags mask: bit `t` set means tag `t` may be generated.
    pub included_tags: int,
}

impl View for MteControl {
    type V = ControlView;

    closed spec fn view(&self) -> ControlView {
        ControlView { mode: self.mode, included_tags: self.included_tags as int }
    }
}

impl MteControl {
    pub open spec fn wf(&self) -> bool {
        0 <= self@.included_tags <= 0xffff
    }

    /// The state a process starts in: no tag checking, and no tag included.
    pub fn new() -> (r: MteControl)
        ensures
            r.wf(),
            r@ == (ControlView { mode: MTEMode::Off, included_tags: 0 }),
    {
        MteControl { mode: MTEMode::Off, included_tags: 0 }
    }

    /// The fault mode in effect.
    pub fn mode(&self) -> (r: MTEMode)
        ensures
            r == self@.mode,
    {
        self.mode
    }

    /// The included-tags mask in effect.
    pub fn included_tags(&self) -> (r: u64)
        ensures
            r == self@.included_tags,
    {
        self.included_tags
    }

    /// The control word that installs this state on the platform.
    pub fn control_word(&self) -> (r: u64)
        requires
            self.wf(),
        ensures
            r == control_word(self@.mode, self@.included_tags),
    {
        let bits = self.mode.mask();
        let word = TAGGED_ADDR_ENABLE | bits | (self.included_tags << INCLUDED_TAGS_SHIFT);
        let inc = self.included_tags;
        assert(1u64 | bits | (inc << 3u64) == 1 + bits + inc * 8) by (bit_vector)
            requires
                bits == 0 || bits == 2 || bits == 4,
                inc <= 0xffff,
        ;
        word
    }
}

/// Installs `mode` with every tag included, and returns the control word
/// that the platform call takes.
pub fn set_mte_mode(control: &mut MteControl, mode: MTEMode) -> (word: u64)
    ensures
        final(control).wf(),
        final(control)@ == (ControlView { mode, included_tags: ALL_TAGS as int }),
        word == control_word(mode, ALL_TAGS as int),
{
    set_mte_mode_tags(control, mode, ALL_TAGS)
}

/// Installs `mode` with the included-tags mask `included_tags`, and returns
/// the control word that the platform call takes.
pub fn set_mte_mode_tags(control: &mut MteControl, mode: MTEMode, included_tags: u64) -> (word: u64)
    requires
        included_tags <= 0xffff,
    ensures
        final(control).wf(),
        final(control)@ == (ControlView { mode, included_tags: included_tags as int }),
        word == control_word(mode, included_tags as int),
{
    *control = MteControl { mode, included_tags };
    control.control_word()
}

} // verus!
