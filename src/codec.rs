//! Encoding a 4-bit tag into the unused top byte of a virtual address.
use vstd::prelude::*;

verus! {

/// The bits of a virtual address that hold the linear address.
pub const ADDRESS_MASK: u64 = 0x0000_ffff_ffff_ffff;

/// The position of the lowest bit of the tag field in a virtual address.
pub const TAG_SHIFT: u64 = 56;

/// One past the largest linear address.
pub open spec fn address_limit() -> int {
    0x1_0000_0000_0000
}

/// The linear address that a (possibly tagged) virtual address points at.
pub open spec fn linear_of(addr: u64) -> int {
    addr as int % 0x1_0000_0000_0000
}

/// The tag that a virtual address carries in bits 56 to 59.
pub open spec fn tag_of(addr: u64) -> int {
    (addr as int / 0x100_0000_0000_0000) % 16
}

/// `addr` with its top 16 bits cleared and the low 4 bits of `tag` placed
/// in bits 56 to 59.
pub open spec fn encoded(addr: u64, tag: u64) -> int {
    linear_of(addr) + (tag as int % 16) * 0x100_0000_0000_0000
}

proof fn lemma_encode_bits(addr: u64, tag: u64)
    by (bit_vector)
    ensures
        (addr & 0xffff_ffff_ffff) | ((tag & 0xf) << 56) == (addr % 0x1_0000_0000_0000) + (tag
            % 16) * 0x100_0000_0000_0000,
        ((addr & 0xffff_ffff_ffff) | ((tag & 0xf) << 56)) % 0x1_0000_0000_0000 == addr
            % 0x1_0000_0000_0000,
        addr < 0x1_0000_0000_0000 ==> addr % 0x1_0000_0000_0000 == addr,
        (((addr & 0xffff_ffff_ffff) | ((tag & 0xf) << 56)) / 0x100_0000_0000_0000) % 16 == tag
            % 16,
{
}

proof fn lemma_decode_bits(addr: u64)
    by (bit_vector)
    ensures
        addr & 0xffff_ffff_ffff == addr % 0x1_0000_0000_0000,
        (addr >> 56) & 0xf == (addr / 0x100_0000_0000_0000) % 16,
{
}

/// Builds the tagged pointer for `addr` with tag `tag`: the tag is masked to
/// its low 4 bits and the low 48 address bits are kept as they are.
pub fn set_tag(addr: u64, tag: u64) -> (r: u64)
    ensures
        r == encoded(addr, tag),
        linear_of(r) == linear_of(addr),
        tag_of(r) == tag % 16,
        addr < address_limit() ==> linear_of(r) == addr,
{
    proof {
        lemma_encode_bits(addr, tag);
    }
    (addr & ADDRESS_MASK) | ((tag & 0xf) << TAG_SHIFT)
}

/// The linear address of a tagged pointer.
pub fn address_of(addr: u64) -> (r: u64)
    ensures
        r == linear_of(addr),
{
    proof {
        lemma_decode_bits(addr);
    }
    addr & ADDRESS_MASK
}

/// The tag that a tagged pointer carries.
pub fn get_tag(addr: u64) -> (r: u8)
    ensures
        r == tag_of(addr),
{
    proof {
        lemma_decode_bits(addr);
    }
    ((addr >> TAG_SHIFT) & 0xf) as u8
}

} // verus!
