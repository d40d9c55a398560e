//! VMX memory regions, capability words, and intercept bitmaps.

use vstd::prelude::*;

verus! {

/// Memory type 6: write-back, the only VMCS memory type supported.
pub const VMX_MEMORY_TYPE_WRITE_BACK: u8 = 6;

/// Bytes in one bitmap or region page.
pub const PAGE_SIZE: usize = 4096;

/// Decoded IA32_VMX_BASIC capability register.
#[derive(Clone, Copy, Debug, PartialEq, Eq, Structural)]
pub struct VmxBasic {
    /// 31-bit VMCS revision identifier.
    pub revision_id: u32,
    /// Bytes the CPU wants for a VMXON or VMCS region.
    pub region_size: u16,
    /// Whether region addresses are limited to 32 bits.
    pub is_32bit_address: bool,
    /// Memory type the CPU requires for VMCS accesses.
    pub mem_type: u8,
    /// Whether INS/OUTS exits report instruction information.
    pub io_exit_info: bool,
    /// Whether the TRUE capability MSRs for the controls exist.
    pub vmx_flex_controls: bool,
}

impl VmxBasic {
    /// The decoding of a raw IA32_VMX_BASIC value: revision in bits 30:0,
    /// region size in bits 44:32, 32-bit-address flag in bit 48, memory
    /// type in bits 53:50, I/O-exit-info flag in bit 54, flexible-controls
    /// flag in bit 55.
    pub open spec fn decode_spec(raw: u64) -> VmxBasic {
        VmxBasic {
            revision_id: (raw & 0x7fff_ffff) as u32,
            region_size: ((raw >> 32) & 0x1fff) as u16,
            is_32bit_address: (raw >> 48) & 1 == 1,
            mem_type: ((raw >> 50) & 0xf) as u8,
            io_exit_info: (raw >> 54) & 1 == 1,
            vmx_flex_controls: (raw >> 55) & 1 == 1,
        }
    }

    /// Decode a raw IA32_VMX_BASIC value.
    pub fn decode(raw: u64) -> (r: VmxBasic)
        ensures
            r == Self::decode_spec(raw),
    {
        VmxBasic {
            revision_id: (raw & 0x7fff_ffff) as u32,
            region_size: ((raw >> 32) & 0x1fff) as u16,
            is_32bit_address: (raw >> 48) & 1 == 1,
            mem_type: ((raw >> 50) & 0xf) as u8,
            io_exit_info: (raw >> 54) & 1 == 1,
            vmx_flex_controls: (raw >> 55) & 1 == 1,
        }
    }
}

/// Bit `j` of `x | (1 << i)` is set when `j == i`, and otherwise keeps
/// the bit of `x`.
proof fn lemma_u8_bit_set(x: u8, i: u8, j: u8)
    by (bit_vector)
    requires
        i < 8,
        j < 8,
    ensures
        ((x | (1u8 << i)) >> j) & 1 == (if i == j { 1u8 } else { (x >> j) & 1 }),
{
}

/// Bit `j` of `x & !(1 << i)` is clear when `j == i`, and otherwise keeps
/// the bit of `x`.
proof fn lemma_u8_bit_clear(x: u8, i: u8, j: u8)
    by (bit_vector)
    requires
        i < 8,
        j < 8,
    ensures
        ((x & !(1u8 << i)) >> j) & 1 == (if i == j { 0u8 } else { (x >> j) & 1 }),
{
}

/// Every bit of 0 is clear and every bit of 0xff is set.
proof fn lemma_u8_const_bits(j: u8)
    by (bit_vector)
    requires
        j < 8,
    ensures
        (0u8 >> j) & 1 == 0u8,
        (0xffu8 >> j) & 1 == 1u8,
{
}

/// A page of `len` zero bytes.
fn zeroed_page(len: usize) -> (r: Vec<u8>)
    ensures
        r@.len() == len,
        forall|i: int| 0 <= i < len ==> r@[i] == 0u8,
{
    let mut v: Vec<u8> = Vec::new();
    let mut k: usize = 0;
    while k < len
        invariant
            k <= len,
            v@.len() == k,
            forall|i: int| 0 <= i < k ==> v@[i] == 0u8,
        decreases len - k,
    {
        v.push(0u8);
        k = k + 1;
    }
    v
}

/// A page of `len` bytes, each 0xff.
fn filled_page(len: usize) -> (r: Vec<u8>)
    ensures
        r@.len() == len,
        forall|i: int| 0 <= i < len ==> r@[i] == 0xffu8,
{
    let mut v: Vec<u8> = Vec::new();
    let mut k: usize = 0;
    while k < len
        invariant
            k <= len,
            v@.len() == k,
            forall|i: int| 0 <= i < k ==> v@[i] == 0xffu8,
        decreases len - k,
    {
        v.push(0xffu8);
        k = k + 1;
    }
    v
}

/// Exclusive owner of one 4 KiB VMX region (a VMXON region or a VMCS
/// region): zeroed, with the 31-bit revision identifier at offset 0 and
/// the shadow indicator in bit 31 of the first word.
///
/// Only the contents are modeled here; the embedding places them in a
/// page-aligned physical frame and frees the frame on drop.
pub struct VmxRegion {
    data: Vec<u8>,
}

impl VmxRegion {
    /// The bytes of the region.
    pub closed spec fn bytes(&self) -> Seq<u8> {
        self.data@
    }

    /// Whether the region holds a page.
    pub open spec fn initialized(&self) -> bool {
        self.bytes().len() == PAGE_SIZE
    }

    /// Whether the page is zeroed with `revision_id | shadow << 31`
    /// stamped little-endian at offset 0.
    pub open spec fn stamped(&self, revision_id: u32, shadow_indicator: bool) -> bool {
        &&& self.initialized()
        &&& self.bytes()[0] == (revision_id & 0xff) as u8
        &&& self.bytes()[1] == ((revision_id >> 8) & 0xff) as u8
        &&& self.bytes()[2] == ((revision_id >> 16) & 0xff) as u8
        &&& self.bytes()[3] == (((revision_id >> 24) & 0x7f) | (if shadow_indicator { 0x80u32 } else { 0u32 })) as u8
        &&& forall|i: int| 4 <= i < PAGE_SIZE ==> self.bytes()[i] == 0u8
    }

    /// Read one byte of the region.
    pub fn read_byte(&self, index: usize) -> (r: u8)
        requires
            index < self.bytes().len(),
        ensures
            r == self.bytes()[index as int],
    {
        self.data[index]
    }

    /// Number of bytes the region holds.
    pub fn len(&self) -> (r: usize)
        ensures
            r == self.bytes().len(),
    {
        self.data.len()
    }

    /// A region that holds no page yet.
    pub fn uninit() -> (r: Self)
        ensures
            !r.initialized(),
    {
        VmxRegion { data: Vec::new() }
    }

    /// A zeroed page with the revision identifier stamped at offset 0.
    pub fn new(revision_id: u32, shadow_indicator: bool) -> (r: Self)
        requires
            revision_id < 0x8000_0000,
        ensures
            r.stamped(revision_id, shadow_indicator),
    {
        let mut data = zeroed_page(PAGE_SIZE);
        data[0] = (revision_id & 0xff) as u8;
        data[1] = ((revision_id >> 8) & 0xff) as u8;
        data[2] = ((revision_id >> 16) & 0xff) as u8;
        data[3] = (((revision_id >> 24) & 0x7f) | (if shadow_indicator { 0x80u32 } else { 0u32 })) as u8;
        VmxRegion { data }
    }
}

/// The pair of 4 KiB I/O bitmaps: page A covers ports 0x0000-0x7fff,
/// page B covers ports 0x8000-0xffff. A set bit intercepts the port.
pub struct IOBitmap {
    page_a: Vec<u8>,
    page_b: Vec<u8>,
}

impl IOBitmap {
    /// The bytes of page A, covering ports 0x0000-0x7fff.
    pub closed spec fn bytes_a(&self) -> Seq<u8> {
        self.page_a@
    }

    /// The bytes of page B, covering ports 0x8000-0xffff.
    pub closed spec fn bytes_b(&self) -> Seq<u8> {
        self.page_b@
    }

    /// Both pages hold 4096 bytes.
    pub open spec fn wf(&self) -> bool {
        self.bytes_a().len() == PAGE_SIZE && self.bytes_b().len() == PAGE_SIZE
    }

    /// Whether accesses to `port` cause a VM exit.
    pub open spec fn intercepted(&self, port: u16) -> bool {
        if port < 0x8000 {
            ((self.bytes_a()[port as int / 8] >> ((port % 8) as u8)) & 1) == 1
        } else {
            ((self.bytes_b()[(port - 0x8000) as int / 8] >> ((port % 8) as u8)) & 1) == 1
        }
    }

    /// All ports pass through: both pages zero.
    pub fn passthrough_all() -> (r: Self)
        ensures
            r.wf(),
            forall|p: u16| !r.intercepted(p),
    {
        let r = IOBitmap { page_a: zeroed_page(PAGE_SIZE), page_b: zeroed_page(PAGE_SIZE) };
        proof {
            assert forall|p: u16| !r.intercepted(p) by {
                lemma_u8_const_bits((p % 8) as u8);
            }
        }
        r
    }

    /// All ports intercepted: both pages 0xff.
    pub fn intercept_all() -> (r: Self)
        ensures
            r.wf(),
            forall|p: u16| r.intercepted(p),
    {
        let r = IOBitmap { page_a: filled_page(PAGE_SIZE), page_b: filled_page(PAGE_SIZE) };
        proof {
            assert forall|p: u16| r.intercepted(p) by {
                lemma_u8_const_bits((p % 8) as u8);
            }
        }
        r
    }

    /// Read the intercept bit of one port.
    pub fn get_intercept(&self, port: u16) -> (r: bool)
        requires
            self.wf(),
        ensures
            r == self.intercepted(port),
    {
        if port < 0x8000 {
            let idx: usize = (port / 8) as usize;
            (self.page_a[idx] >> ((port % 8) as u8)) & 1 == 1
        } else {
            let idx: usize = ((port - 0x8000) / 8) as usize;
            (self.page_b[idx] >> ((port % 8) as u8)) & 1 == 1
        }
    }

    /// Set or clear the intercept bit of one port, leaving every other
    /// port unchanged.
    pub fn set_intercept(&mut self, port: u16, intercept: bool)
        requires
            old(self).wf(),
        ensures
            final(self).wf(),
            forall|q: u16| final(self).intercepted(q)
                == (if q == port { intercept } else { old(self).intercepted(q) }),
    {
        let bit: u8 = (port % 8) as u8;
        if port < 0x8000 {
            let idx: usize = (port / 8) as usize;
            let byte = self.page_a[idx];
            let updated: u8 = if intercept { byte | (1u8 << bit) } else { byte & !(1u8 << bit) };
            self.page_a[idx] = updated;
            proof {
                assert forall|q: u16| final(self).intercepted(q)
                    == (if q == port { intercept } else { old(self).intercepted(q) }) by {
                    if q < 0x8000 && q as int / 8 == port as int / 8 {
                        if intercept {
                            lemma_u8_bit_set(byte, bit, (q % 8) as u8);
                        } else {
                            lemma_u8_bit_clear(byte, bit, (q % 8) as u8);
                        }
                    }
                }
            }
        } else {
            let idx: usize = ((port - 0x8000) / 8) as usize;
            let byte = self.page_b[idx];
            let updated: u8 = if intercept { byte | (1u8 << bit) } else { byte & !(1u8 << bit) };
            self.page_b[idx] = updated;
            proof {
                assert forall|q: u16| final(self).intercepted(q)
                    == (if q == port { intercept } else { old(self).intercepted(q) }) by {
                    if q >= 0x8000 && (q - 0x8000) as int / 8 == (port - 0x8000) as int / 8 {
                        if intercept {
                            lemma_u8_bit_set(byte, bit, (q % 8) as u8);
                        } else {
                            lemma_u8_bit_clear(byte, bit, (q % 8) as u8);
                        }
                    }
                }
            }
        }
    }

    /// Set or clear the intercept bit of `count` ports starting at
    /// `port_base`, leaving every port outside the range unchanged.
    pub fn set_intercept_of_range(&mut self, port_base: u32, count: u32, intercept: bool)
        requires
            old(self).wf(),
            port_base + count <= 0x1_0000,
        ensures
            final(self).wf(),
            forall|q: u16| final(self).intercepted(q) == (
                if port_base <= q < port_base + count { intercept } else { old(self).intercepted(q) }
            ),
    {
        let mut k: u32 = 0;
        while k < count
            invariant
                self.wf(),
                k <= count,
                port_base + count <= 0x1_0000,
                forall|q: u16| self.intercepted(q) == (
                    if port_base <= q < port_base + k { intercept } else { old(self).intercepted(q) }
                ),
            decreases count - k,
        {
            self.set_intercept((port_base + k) as u16, intercept);
            k = k + 1;
        }
    }
}

/// Whether `msr` lies in one of the two ranges the MSR bitmap covers:
/// 0x0000_0000-0x0000_1fff and 0xc000_0000-0xc000_1fff.
pub open spec fn msr_in_bitmap_range(msr: u32) -> bool {
    msr <= 0x1fff || (0xc000_0000 <= msr && msr <= 0xc000_1fff)
}

/// Low 13 bits of an in-range MSR select its bit position; they equal the
/// MSR itself in the low range and its offset from 0xc000_0000 in the
/// high range.
proof fn lemma_msr_mask(m: u32)
    by (bit_vector)
    requires
        m <= 0x1fff || (0xc000_0000 <= m && m <= 0xc000_1fff),
    ensures
        m <= 0x1fff ==> (m & 0x1fff) == m,
        m > 0x1fff ==> (m & 0x1fff) == m - 0xc000_0000,
        (m & 0x1fff) <= 0x1fff,
{
}

/// The 4 KiB MSR bitmap: four 1 KiB quarters covering read-low,
/// read-high, write-low and write-high intercepts of the MSR ranges
/// 0x0000_0000-0x0000_1fff and 0xc000_0000-0xc000_1fff. A set bit
/// intercepts the access.
pub struct MsrBitmap {
    data: Vec<u8>,
}

impl MsrBitmap {
    /// The bytes of the page.
    pub closed spec fn bytes(&self) -> Seq<u8> {
        self.data@
    }

    /// The page holds 4096 bytes.
    pub open spec fn wf(&self) -> bool {
        self.bytes().len() == PAGE_SIZE
    }

    /// Byte of the page that carries the intercept bit of `msr` for the
    /// given direction.
    pub open spec fn byte_index(msr: u32, is_write: bool) -> int {
        (if is_write { 2048int } else { 0int })
            + (if msr <= 0x1fff { 0int } else { 1024int })
            + (msr & 0x1fff) as int / 8
    }

    /// Whether the access in the given direction to `msr` causes a VM
    /// exit.
    pub open spec fn intercepted(&self, msr: u32, is_write: bool) -> bool {
        ((self.bytes()[Self::byte_index(msr, is_write)] >> (((msr & 0x1fff) % 8) as u8)) & 1) == 1
    }

    /// All MSR accesses pass through: the page is zero.
    pub fn passthrough_all() -> (r: Self)
        ensures
            r.wf(),
            forall|m: u32, w: bool| msr_in_bitmap_range(m) ==> !r.intercepted(m, w),
    {
        let r = MsrBitmap { data: zeroed_page(PAGE_SIZE) };
        proof {
            assert forall|m: u32, w: bool| msr_in_bitmap_range(m) implies !r.intercepted(m, w) by {
                lemma_msr_mask(m);
                lemma_u8_const_bits(((m & 0x1fff) % 8) as u8);
            }
        }
        r
    }

    /// Read the intercept bit of one MSR for one direction.
    pub fn get_intercept(&self, msr: u32, is_write: bool) -> (r: bool)
        requires
            self.wf(),
            msr_in_bitmap_range(msr),
        ensures
            r == self.intercepted(msr, is_write),
    {
        proof {
            lemma_msr_mask(msr);
        }
        let low: u32 = msr & 0x1fff;
        let base: usize = (if is_write { 2048usize } else { 0usize })
            + (if msr <= 0x1fff { 0usize } else { 1024usize });
        let idx: usize = base + (low / 8) as usize;
        (self.data[idx] >> ((low % 8) as u8)) & 1 == 1
    }

    /// Set or clear the intercept bit of one MSR for one direction,
    /// leaving every other in-range MSR and the other direction
    /// unchanged.
    pub fn set_intercept(&mut self, msr: u32, is_write: bool, intercept: bool)
        requires
            old(self).wf(),
            msr_in_bitmap_range(msr),
        ensures
            final(self).wf(),
            forall|m: u32, w: bool| msr_in_bitmap_range(m) ==> final(self).intercepted(m, w)
                == (if m == msr && w == is_write { intercept } else { old(self).intercepted(m, w) }),
    {
        proof {
            lemma_msr_mask(msr);
        }
        let low: u32 = msr & 0x1fff;
        let base: usize = (if is_write { 2048usize } else { 0usize })
            + (if msr <= 0x1fff { 0usize } else { 1024usize });
        let idx: usize = base + (low / 8) as usize;
        let bit: u8 = (low % 8) as u8;
        let byte = self.data[idx];
        let updated: u8 = if intercept { byte | (1u8 << bit) } else { byte & !(1u8 << bit) };
        self.data[idx] = updated;
        proof {
            assert forall|m: u32, w: bool| msr_in_bitmap_range(m) implies final(self).intercepted(m, w)
                == (if m == msr && w == is_write { intercept } else { old(self).intercepted(m, w) }) by {
                lemma_msr_mask(m);
                if Self::byte_index(m, w) == Self::byte_index(msr, is_write) {
                    if intercept {
                        lemma_u8_bit_set(byte, bit, ((m & 0x1fff) % 8) as u8);
                    } else {
                        lemma_u8_bit_clear(byte, bit, ((m & 0x1fff) % 8) as u8);
                    }
                }
            }
        }
    }

    /// Set or clear the read intercept of one MSR.
    pub fn set_read_intercept(&mut self, msr: u32, intercept: bool)
        requires
            old(self).wf(),
            msr_in_bitmap_range(msr),
        ensures
            final(self).wf(),
            forall|m: u32, w: bool| msr_in_bitmap_range(m) ==> final(self).intercepted(m, w)
                == (if m == msr && w == false { intercept } else { old(self).intercepted(m, w) }),
    {
        self.set_intercept(msr, false, intercept)
    }

    /// Set or clear the write intercept of one MSR.
    pub fn set_write_intercept(&mut self, msr: u32, intercept: bool)
        requires
            old(self).wf(),
            msr_in_bitmap_range(msr),
        ensures
            final(self).wf(),
            forall|m: u32, w: bool| msr_in_bitmap_range(m) ==> final(self).intercepted(m, w)
                == (if m == msr && w == true { intercept } else { old(self).intercepted(m, w) }),
    {
        self.set_intercept(msr, true, intercept)
    }
}

/// Setting the intercept of a port and then clearing it restores the
/// intercept state of every port, provided the port was not intercepted
/// before. The two steps are described by the contract of
/// [`IOBitmap::set_intercept`].
pub proof fn lemma_io_intercept_round_trip(b0: IOBitmap, b1: IOBitmap, b2: IOBitmap, port: u16)
    requires
        !b0.intercepted(port),
        forall|q: u16| b1.intercepted(q) == (if q == port { true } else { b0.intercepted(q) }),
        forall|q: u16| b2.intercepted(q) == (if q == port { false } else { b1.intercepted(q) }),
    ensures
        forall|q: u16| b2.intercepted(q) == b0.intercepted(q),
{
}

} // verus!
