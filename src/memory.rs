//! A memory region seen the way the tagging hardware sees it: data bytes at
//! linear addresses, and one 4-bit tag for each 16-byte granule. The methods
//! of `TaggedMemory` are the hardware's narrow vocabulary (store a tag, store
//! a tag pair, load a tag, zero a block with its tags, plain data access);
//! every operation of the library is built on them.
use vstd::prelude::*;

use crate::codec::{address_limit, address_of, get_tag, linear_of, tag_of};

verus! {

/// The number of bytes to which one tag applies.
pub const GRANULE_SIZE: u64 = 16;

/// The number of granules that `len` bytes touch.
pub open spec fn granule_count(len: int) -> int {
    (len + 15) / 16
}

/// The abstract state of a region.
pub struct RegionView {
    /// The linear address of the first byte.
    pub base: int,
    /// The data bytes.
    pub data: Seq<u8>,
    /// One tag for each granule, in order.
    pub tags: Seq<u8>,
}

impl RegionView {
    /// The region is granule-aligned, lies in the 48-bit address space, has
    /// one tag for each granule it touches, and every tag is 4 bits wide.
    pub open spec fn wf(self) -> bool {
        &&& self.base % 16 == 0
        &&& 0 <= self.base
        &&& self.base + self.data.len() <= address_limit()
        &&& self.tags.len() == granule_count(self.data.len() as int)
        &&& forall|g: int| 0 <= g < self.tags.len() ==> #[trigger] self.tags[g] < 16
    }

    /// The offset in the region of the byte that `addr` points at.
    pub open spec fn offset_of(self, addr: u64) -> int {
        linear_of(addr) - self.base
    }

    /// `addr` points at the start of a granule of the region that is followed
    /// by at least `n` whole granules inside the region.
    pub open spec fn holds_granules(self, addr: u64, n: int) -> bool {
        &&& 0 <= self.offset_of(addr)
        &&& self.offset_of(addr) % 16 == 0
        &&& self.offset_of(addr) + 16 * n <= self.data.len()
    }

    /// `addr` points at a byte of the region.
    pub open spec fn holds_byte(self, addr: u64) -> bool {
        0 <= self.offset_of(addr) < self.data.len()
    }

    /// The tag of the granule that holds the byte at `offset`.
    pub open spec fn tag_at(self, offset: int) -> u8 {
        self.tags[offset / 16]
    }

    /// The region with the tags of granules `first .. first + count` set to `tag`.
    pub open spec fn set_tags(self, first: int, count: int, tag: int) -> RegionView {
        RegionView {
            tags: Seq::new(
                self.tags.len(),
                |g: int|
                    if first <= g < first + count {
                        tag as u8
                    } else {
                        self.tags[g]
                    },
            ),
            ..self
        }
    }

    /// The region with the bytes at offsets `lo .. hi` set to zero.
    pub open spec fn zero_bytes(self, lo: int, hi: int) -> RegionView {
        RegionView {
            data: Seq::new(
                self.data.len(),
                |i: int|
                    if lo <= i < hi {
                        0u8
                    } else {
                        self.data[i]
                    },
            ),
            ..self
        }
    }

    /// The region with `bytes` written from offset `lo` on.
    pub open spec fn write_bytes(self, lo: int, bytes: Seq<u8>) -> RegionView {
        RegionView {
            data: Seq::new(
                self.data.len(),
                |i: int|
                    if lo <= i < lo + bytes.len() {
                        bytes[i - lo]
                    } else {
                        self.data[i]
                    },
            ),
            ..self
        }
    }
}

/// Setting the tags of two adjacent runs of granules sets the tags of the
/// run that they make up.
pub proof fn lemma_set_tags_adjacent(v: RegionView, first: int, n: int, m: int, tag: int)
    requires
        0 <= n,
        0 <= m,
    ensures
        v.set_tags(first, n, tag).set_tags(first + n, m, tag) == v.set_tags(first, n + m, tag),
{
    assert(v.set_tags(first, n, tag).set_tags(first + n, m, tag).tags =~= v.set_tags(
        first,
        n + m,
        tag,
    ).tags);
}

/// Zeroing two adjacent ranges of bytes zeroes the range they make up.
pub proof fn lemma_zero_bytes_adjacent(v: RegionView, lo: int, mid: int, hi: int)
    requires
        lo <= mid <= hi,
    ensures
        v.zero_bytes(lo, mid).zero_bytes(mid, hi) == v.zero_bytes(lo, hi),
{
    assert(v.zero_bytes(lo, mid).zero_bytes(mid, hi).data =~= v.zero_bytes(lo, hi).data);
}

/// Of two distinct multiples of `m`, the larger is at least `m` above the
/// smaller.
pub proof fn lemma_next_multiple(a: int, b: int, m: int)
    requires
        0 < m,
        a % m == 0,
        b % m == 0,
        a < b,
    ensures
        a + m <= b,
{
    vstd::arithmetic::div_mod::lemma_fundamental_div_mod(a, m);
    vstd::arithmetic::div_mod::lemma_fundamental_div_mod(b, m);
    let qa = a / m;
    let qb = b / m;
    assert(qa < qb) by (nonlinear_arith)
        requires
            a == m * qa,
            b == m * qb,
            a < b,
            0 < m,
    ;
    assert(m * qa + m <= m * qb) by (nonlinear_arith)
        requires
            qa + 1 <= qb,
            0 < m,
    ;
}

/// A region of memory with its data and its granule tags.
pub struct TaggedMemory {
    base: u64,
    data: Vec<u8>,
    tags: Vec<u8>,
}

impl View for TaggedMemory {
    type V = RegionView;

    closed spec fn view(&self) -> RegionView {
        RegionView { base: self.base as int, data: self.data@, tags: self.tags@ }
    }
}

impl TaggedMemory {
    pub open spec fn wf(&self) -> bool {
        self@.wf()
    }

    /// A region at `base` that holds `bytes`, with every tag 0, as freshly
    /// mapped memory has. `None` where `base` is not granule-aligned or the
    /// region would leave the 48-bit address space.
    pub fn from_bytes(base: u64, bytes: Vec<u8>) -> (r: Option<TaggedMemory>)
        ensures
            r is Some <==> (base % 16 == 0 && base + bytes@.len() <= address_limit()),
            r matches Some(m) ==> m.wf() && m@.base == base && m@.data == bytes@ && m@.tags
                == Seq::new(granule_count(bytes@.len() as int) as nat, |g: int| 0u8),
    {
        if base % GRANULE_SIZE != 0 || base > 0x1_0000_0000_0000 || bytes.len() as u64
            > 0x1_0000_0000_0000 - base {
            return None;
        }
        let n: usize = bytes.len() / 16 + if bytes.len() % 16 == 0 {
            0
        } else {
            1
        };
        let mut tags: Vec<u8> = Vec::new();
        while tags.len() < n
            invariant
                tags@.len() <= n,
                forall|g: int| 0 <= g < tags@.len() ==> #[trigger] tags@[g] == 0u8,
            decreases n - tags@.len(),
        {
            tags.push(0u8);
        }
        let m = TaggedMemory { base, data: bytes, tags };
        assert(m@.tags =~= Seq::new(granule_count(m@.data.len() as int) as nat, |g: int| 0u8));
        Some(m)
    }

    /// A region at `base` of `len` zero bytes with every tag 0, as freshly
    /// mapped anonymous memory is. `None` as for `from_bytes`.
    pub fn new(base: u64, len: usize) -> (r: Option<TaggedMemory>)
        ensures
            r is Some <==> (base % 16 == 0 && base + len <= address_limit()),
            r matches Some(m) ==> m.wf() && m@.base == base && m@.data == Seq::new(
                len as nat,
                |i: int| 0u8,
            ) && m@.tags == Seq::new(granule_count(len as int) as nat, |g: int| 0u8),
    {
        if base % GRANULE_SIZE != 0 || base > 0x1_0000_0000_0000 || len as u64 > 0x1_0000_0000_0000
            - base {
            return None;
        }
        let mut bytes: Vec<u8> = Vec::new();
        while bytes.len() < len
            invariant
                bytes@.len() <= len,
                forall|i: int| 0 <= i < bytes@.len() ==> #[trigger] bytes@[i] == 0u8,
            decreases len - bytes@.len(),
        {
            bytes.push(0u8);
        }
        assert(bytes@ =~= Seq::new(len as nat, |i: int| 0u8));
        Self::from_bytes(base, bytes)
    }

    /// The linear address of the first byte.
    pub fn base(&self) -> (r: u64)
        ensures
            r == self@.base,
    {
        self.base
    }

    /// The length in bytes.
    pub fn len(&self) -> (r: usize)
        ensures
            r == self@.data.len(),
    {
        self.data.len()
    }

    /// The data bytes.
    pub fn bytes(&self) -> (r: &[u8])
        ensures
            r@ == self@.data,
    {
        self.data.as_slice()
    }

    /// The number of granules.
    pub fn granules(&self) -> (r: usize)
        ensures
            r == self@.tags.len(),
    {
        self.tags.len()
    }

    /// The tag of granule `g`.
    pub fn granule_tag(&self, g: usize) -> (r: u8)
        requires
            g < self@.tags.len(),
        ensures
            r == self@.tags[g as int],
    {
        self.tags[g]
    }

    /// The offset of `addr` from the base, for an address inside the region.
    fn offset(&self, addr: u64) -> (r: usize)
        requires
            self.wf(),
            0 <= self@.offset_of(addr) <= self@.data.len(),
        ensures
            r == self@.offset_of(addr),
            self@.data.len() <= usize::MAX,
    {
        let _ = self.data.len();
        let d: u64 = address_of(addr) - self.base;
        assert(d <= self.data.len());
        d as usize
    }

    /// Loads the tag of the granule that holds the byte `addr` points at,
    /// whatever tag `addr` itself carries.
    pub fn load_tag(&self, addr: u64) -> (r: u8)
        requires
            self.wf(),
            self@.holds_byte(addr),
        ensures
            r == self@.tag_at(self@.offset_of(addr)),
            r < 16,
    {
        let off = self.offset(addr);
        self.tags[off / 16]
    }

    /// Loads the 16 data bytes of the granule that `addr` points at.
    pub fn load_granule(&self, addr: u64) -> (r: Vec<u8>)
        requires
            self.wf(),
            self@.holds_granules(addr, 1),
        ensures
            r@ == self@.data.subrange(self@.offset_of(addr), self@.offset_of(addr) + 16),
    {
        let off = self.offset(addr);
        let mut r: Vec<u8> = Vec::new();
        let mut i: usize = 0;
        while i < 16
            invariant
                0 <= off,
                off + 16 <= self.data.len(),
                i <= 16,
                r@ == self@.data.subrange(off as int, off + i),
            decreases 16 - i,
        {
            r.push(self.data[off + i]);
            i = i + 1;
            assert(r@ =~= self@.data.subrange(off as int, off + i));
        }
        r
    }

    /// Writes `value` to the byte that `addr` points at.
    pub fn write_byte(&mut self, addr: u64, value: u8)
        requires
            old(self).wf(),
            old(self)@.holds_byte(addr),
        ensures
            final(self).wf(),
            final(self)@ == old(self)@.write_bytes(old(self)@.offset_of(addr), seq![value]),
    {
        let off = self.offset(addr);
        self.data.set(off, value);
        assert(self@.data =~= old(self)@.write_bytes(off as int, seq![value]).data);
    }

    /// Stores the tag that `addr` carries to the granule it points at.
    pub fn tag_granule(&mut self, addr: u64)
        requires
            old(self).wf(),
            old(self)@.holds_granules(addr, 1),
        ensures
            final(self).wf(),
            final(self)@ == old(self)@.set_tags(old(self)@.offset_of(addr) / 16, 1, tag_of(addr)),
    {
        let g = self.offset(addr) / 16;
        self.tags.set(g, get_tag(addr));
        assert(self@.tags =~= old(self)@.set_tags(g as int, 1, tag_of(addr)).tags);
    }

    /// Stores the tag that `addr` carries to the granule it points at and
    /// to the next one.
    pub fn tag_granule_pair(&mut self, addr: u64)
        requires
            old(self).wf(),
            old(self)@.holds_granules(addr, 2),
        ensures
            final(self).wf(),
            final(self)@ == old(self)@.set_tags(old(self)@.offset_of(addr) / 16, 2, tag_of(addr)),
    {
        let g = self.offset(addr) / 16;
        let t = get_tag(addr);
        self.tags.set(g, t);
        self.tags.set(g + 1, t);
        assert(self@.tags =~= old(self)@.set_tags(g as int, 2, tag_of(addr)).tags);
    }

    /// Zeroes the bytes at offsets `lo .. hi`.
    fn zero_range(&mut self, lo: usize, hi: usize)
        requires
            old(self).wf(),
            lo <= hi <= old(self)@.data.len(),
        ensures
            final(self).wf(),
            final(self)@ == old(self)@.zero_bytes(lo as int, hi as int),
    {
        assert(old(self)@.zero_bytes(lo as int, lo as int).data =~= old(self)@.data);
        let mut i: usize = lo;
        while i < hi
            invariant
                self.wf(),
                lo <= i <= hi <= self@.data.len(),
                self@ == old(self)@.zero_bytes(lo as int, i as int),
            decreases hi - i,
        {
            proof {
                lemma_zero_bytes_adjacent(old(self)@, lo as int, i as int, i + 1);
            }
            self.data.set(i, 0u8);
            i = i + 1;
            assert(self@.data =~= old(self)@.zero_bytes(lo as int, i as int).data);
        }
    }

    /// Stores the tag that `addr` carries to the granule it points at and
    /// zeroes that granule's data.
    pub fn tag_and_zero_granule(&mut self, addr: u64)
        requires
            old(self).wf(),
            old(self)@.holds_granules(addr, 1),
        ensures
            final(self).wf(),
            final(self)@ == old(self)@.set_tags(old(self)@.offset_of(addr) / 16, 1, tag_of(addr)).zero_bytes(
                old(self)@.offset_of(addr),
                old(self)@.offset_of(addr) + 16,
            ),
    {
        let off = self.offset(addr);
        self.tag_granule(addr);
        self.zero_range(off, off + 16);
    }

    /// Stores the tag that `addr` carries to the granule it points at and to
    /// the next one, and zeroes the data of both.
    pub fn tag_and_zero_granule_pair(&mut self, addr: u64)
        requires
            old(self).wf(),
            old(self)@.holds_granules(addr, 2),
        ensures
            final(self).wf(),
            final(self)@ == old(self)@.set_tags(old(self)@.offset_of(addr) / 16, 2, tag_of(addr)).zero_bytes(
                old(self)@.offset_of(addr),
                old(self)@.offset_of(addr) + 32,
            ),
    {
        let off = self.offset(addr);
        self.tag_granule_pair(addr);
        self.zero_range(off, off + 32);
    }

    /// Stores the tag that `addr` carries to the granule it points at and
    /// writes the 16 bytes `value` as that granule's data, in one step.
    pub fn tag_and_store_granule(&mut self, addr: u64, value: &[u8])
        requires
            old(self).wf(),
            old(self)@.holds_granules(addr, 1),
            value@.len() == 16,
        ensures
            final(self).wf(),
            final(self)@ == old(self)@.set_tags(old(self)@.offset_of(addr) / 16, 1, tag_of(addr)).write_bytes(
                old(self)@.offset_of(addr),
                value@,
            ),
    {
        let off = self.offset(addr);
        self.tag_granule(addr);
        let ghost tagged = self@;
        assert(tagged.write_bytes(off as int, value@.subrange(0, 0)).data =~= tagged.data);
        let mut i: usize = 0;
        while i < 16
            invariant
                self.wf(),
                off + 16 <= self@.data.len() <= usize::MAX,
                value@.len() == 16,
                i <= 16,
                self@ == tagged.write_bytes(off as int, value@.subrange(0, i as int)),
            decreases 16 - i,
        {
            self.data.set(off + i, value[i]);
            i = i + 1;
            assert(self@.data =~= tagged.write_bytes(off as int, value@.subrange(0, i as int)).data);
        }
        assert(value@.subrange(0, 16) =~= value@);
    }

    /// Zeroes the naturally aligned block of `block` bytes that `addr` points
    /// at, and stores the tag that `addr` carries to each of its granules.
    pub fn zero_block_with_tag(&mut self, addr: u64, block: u64)
        requires
            old(self).wf(),
            block > 0,
            block % 16 == 0,
            linear_of(addr) % (block as int) == 0,
            old(self)@.holds_granules(addr, block as int / 16),
        ensures
            final(self).wf(),
            final(self)@ == old(self)@.set_tags(
                old(self)@.offset_of(addr) / 16,
                block as int / 16,
                tag_of(addr),
            ).zero_bytes(old(self)@.offset_of(addr), old(self)@.offset_of(addr) + block),
    {
        let off = self.offset(addr);
        let first = off / 16;
        let n = (block / 16) as usize;
        let t = get_tag(addr);
        assert(old(self)@.set_tags(first as int, 0, t as int).tags =~= old(self)@.tags);
        let mut k: usize = 0;
        while k < n
            invariant
                self.wf(),
                old(self).wf(),
                first * 16 == off,
                off + 16 * n <= self@.data.len() <= usize::MAX,
                self@.data == old(self)@.data,
                self@.base == old(self)@.base,
                t == tag_of(addr),
                k <= n,
                self@ == old(self)@.set_tags(first as int, k as int, t as int),
            decreases n - k,
        {
            proof {
                lemma_set_tags_adjacent(old(self)@, first as int, k as int, 1, t as int);
            }
            self.tags.set(first + k, t);
            k = k + 1;
            assert(self@.tags =~= old(self)@.set_tags(first as int, k as int, t as int).tags);
        }
        self.zero_range(off, off + 16 * n);
    }
}

} // verus!
