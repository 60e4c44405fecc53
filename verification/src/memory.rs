use vstd::prelude::*;
use vstd::map::*;
use std::collections::HashMap;

verus! {

broadcast use vstd::std_specs::hash::group_hash_axioms;

/// Size of one guest page in bytes.
pub const PAGE_SIZE: u64 = 0x1000;

/// The page map as the specifications see it: a partial map from page
/// index to the 4096 bytes of that page.
pub type MemView = Map<u64, Seq<u8>>;

/// Every mapped page holds exactly `PAGE_SIZE` bytes.
pub open spec fn mem_inv(m: MemView) -> bool {
    forall|k: u64| m.contains_key(k) ==> (#[trigger] m[k]).len() == PAGE_SIZE
}

/// The page that holds a virtual address is mapped.
pub open spec fn mem_mapped(m: MemView, va: u64) -> bool {
    m.contains_key(va / PAGE_SIZE)
}

/// The byte stored at a mapped virtual address.
pub open spec fn mem_byte(m: MemView, va: u64) -> u8 {
    m[va / PAGE_SIZE][(va % PAGE_SIZE) as int]
}

/// Every byte of `[va, va + n)` lies on a mapped page; addresses wrap
/// at the end of the address space.
pub open spec fn mem_range_mapped(m: MemView, va: u64, n: u64) -> bool {
    forall|i: u64| i < n ==> mem_mapped(m, #[trigger] va.wrapping_add(i))
}

/// The page map after one byte is stored at a mapped address.
pub open spec fn mem_write_byte(m: MemView, va: u64, b: u8) -> MemView {
    m.insert(va / PAGE_SIZE, m[va / PAGE_SIZE].update((va % PAGE_SIZE) as int, b))
}

/// The page map after the bytes of `bs` are stored one after another
/// starting at `va`.
pub open spec fn mem_write_bytes(m: MemView, va: u64, bs: Seq<u8>) -> MemView
    decreases bs.len(),
{
    if bs.len() == 0 {
        m
    } else {
        mem_write_bytes(mem_write_byte(m, va, bs[0]), va.wrapping_add(1), bs.skip(1))
    }
}

/// A page full of zero bytes.
pub open spec fn zero_page() -> Seq<u8> {
    Seq::new(PAGE_SIZE as nat, |i: int| 0u8)
}

/// Writing one byte keeps the page domain, the page sizes, and every
/// other byte.
pub proof fn lemma_mem_write_byte(m: MemView, va: u64, b: u8)
    requires
        mem_inv(m),
        mem_mapped(m, va),
    ensures
        mem_inv(mem_write_byte(m, va, b)),
        mem_write_byte(m, va, b).dom() == m.dom(),
        mem_byte(mem_write_byte(m, va, b), va) == b,
        forall|a: u64| a != va && mem_mapped(m, a) ==> mem_byte(
            #[trigger] mem_write_byte(m, va, b),
            a,
        ) == mem_byte(m, a),
{
    let post = mem_write_byte(m, va, b);
    assert(post.dom() =~= m.dom());
    assert(0 <= va % PAGE_SIZE < PAGE_SIZE) by (nonlinear_arith)
        requires PAGE_SIZE > 0,
    ;
    assert forall|a: u64| a != va && mem_mapped(m, a) implies mem_byte(post, a) == mem_byte(
        m,
        a,
    ) by {
        if a / PAGE_SIZE == va / PAGE_SIZE {
            assert(a % PAGE_SIZE != va % PAGE_SIZE) by (nonlinear_arith)
                requires a != va, a / PAGE_SIZE == va / PAGE_SIZE, PAGE_SIZE > 0,
            ;
        }
    }
}

/// Adding two small offsets one after the other is adding their sum,
/// and distinct small offsets land on distinct addresses.
proof fn lemma_wrapping_add_chain(base: u64, i: u64, j: u64)
    requires
        i as int + j as int <= u64::MAX,
    ensures
        base.wrapping_add(i).wrapping_add(j) == base.wrapping_add((i + j) as u64),
{
}

/// Distinct offsets below 2^32 added to one base give distinct
/// addresses.
pub proof fn lemma_wrapping_offsets_distinct(base: u64, i: u64, j: u64)
    requires
        i < j,
        j < 0x1_0000_0000,
    ensures
        base.wrapping_add(i) != base.wrapping_add(j),
{
}

/// Writing a byte sequence keeps the page domain and the page sizes;
/// the bytes of the written range come from the sequence and every
/// other byte keeps its old value.
pub proof fn lemma_mem_write_bytes(m: MemView, va: u64, bs: Seq<u8>)
    requires
        mem_inv(m),
        bs.len() < 0x1_0000_0000,
        mem_range_mapped(m, va, bs.len() as u64),
    ensures
        mem_inv(mem_write_bytes(m, va, bs)),
        mem_write_bytes(m, va, bs).dom() == m.dom(),
        forall|i: u64| i < bs.len() ==> mem_byte(
            mem_write_bytes(m, va, bs),
            #[trigger] va.wrapping_add(i),
        ) == bs[i as int],
        forall|a: u64| mem_mapped(m, a) && (forall|i: u64|
            i < bs.len() ==> a != #[trigger] va.wrapping_add(i)) ==> mem_byte(
            #[trigger] mem_write_bytes(m, va, bs),
            a,
        ) == mem_byte(m, a),
    decreases bs.len(),
{
    if bs.len() == 0 {
    } else {
        assert(mem_mapped(m, va.wrapping_add(0)));
        assert(va.wrapping_add(0) == va);
        let m1 = mem_write_byte(m, va, bs[0]);
        lemma_mem_write_byte(m, va, bs[0]);
        let va1 = va.wrapping_add(1);
        let rest = bs.skip(1);
        assert forall|i: u64| i < rest.len() implies mem_mapped(
            m1,
            #[trigger] va1.wrapping_add(i),
        ) by {
            lemma_wrapping_add_chain(va, 1, i);
            assert(mem_mapped(m, va.wrapping_add((i + 1) as u64)));
        }
        lemma_mem_write_bytes(m1, va1, rest);
        let post = mem_write_bytes(m, va, bs);
        assert(post == mem_write_bytes(m1, va1, rest));
        assert forall|i: u64| i < bs.len() implies mem_byte(
            post,
            #[trigger] va.wrapping_add(i),
        ) == bs[i as int] by {
            if i == 0 {
                assert forall|j: u64| j < rest.len() implies va
                    != #[trigger] va1.wrapping_add(j) by {
                    lemma_wrapping_add_chain(va, 1, j);
                    lemma_wrapping_offsets_distinct(va, 0, (j + 1) as u64);
                    assert(va.wrapping_add(0) == va);
                }
                assert(mem_byte(post, va) == mem_byte(m1, va));
            } else {
                lemma_wrapping_add_chain(va, 1, (i - 1) as u64);
                assert(va.wrapping_add(i) == va1.wrapping_add((i - 1) as u64));
                assert(rest[i - 1] == bs[i as int]);
            }
        }
        assert forall|a: u64| mem_mapped(m, a) && (forall|i: u64|
            i < bs.len() ==> a != #[trigger] va.wrapping_add(i)) implies mem_byte(
            post,
            a,
        ) == mem_byte(m, a) by {
            assert(a != va.wrapping_add(0));
            assert forall|j: u64| j < rest.len() implies a != #[trigger] va1.wrapping_add(
                j,
            ) by {
                lemma_wrapping_add_chain(va, 1, j);
                assert(a != va.wrapping_add((j + 1) as u64));
            }
        }
    }
}

/// Writing one more byte extends a partial `mem_write_bytes`: writing
/// the first `i + 1` bytes equals writing the first `i` bytes and then
/// the byte at offset `i`.
proof fn lemma_mem_write_bytes_snoc(m: MemView, va: u64, bs: Seq<u8>, i: u64)
    requires
        i < bs.len(),
        bs.len() < 0x1_0000_0000,
    ensures
        mem_write_bytes(m, va, bs.take(i + 1)) == mem_write_byte(
            mem_write_bytes(m, va, bs.take(i as int)),
            va.wrapping_add(i),
            bs[i as int],
        ),
    decreases i,
{
    if i == 0 {
        assert(bs.take(0).len() == 0);
        assert(bs.take(1) =~= seq![bs[0]]);
        assert(bs.take(1).skip(1) =~= Seq::<u8>::empty());
        assert(mem_write_bytes(m, va, bs.take(1)) == mem_write_bytes(
            mem_write_byte(m, va, bs[0]),
            va.wrapping_add(1),
            bs.take(1).skip(1),
        ));
        assert(va.wrapping_add(0) == va);
    } else {
        let m1 = mem_write_byte(m, va, bs[0]);
        let va1 = va.wrapping_add(1);
        assert(bs.take(i + 1)[0] == bs[0]);
        assert(bs.take(i + 1).skip(1) =~= bs.skip(1).take(i as int));
        assert(bs.take(i as int).skip(1) =~= bs.skip(1).take(i - 1));
        lemma_mem_write_bytes_snoc(m1, va1, bs.skip(1), (i - 1) as u64);
        assert(bs.skip(1)[i - 1] == bs[i as int]);
        lemma_wrapping_add_chain(va, 1, (i - 1) as u64);
        assert(va1.wrapping_add((i - 1) as u64) == va.wrapping_add(i));
    }
}

/// A page-indexed flat guest address space. Virtual and physical
/// addresses coincide; unmapped pages make reads and writes fail.
pub struct Memory {
    physical_to_host: HashMap<u64, Vec<u8>>,
}

/// The spec-level contents of a page table.
pub open spec fn pages_view(m: Map<u64, Vec<u8>>) -> MemView {
    Map::new(|k: u64| m.contains_key(k), |k: u64| m[k]@)
}

impl View for Memory {
    type V = MemView;

    closed spec fn view(&self) -> MemView {
        pages_view(self.physical_to_host@)
    }
}

proof fn lemma_pages_view_insert(m: Map<u64, Vec<u8>>, k: u64, v: Vec<u8>)
    ensures
        pages_view(m.insert(k, v)) == pages_view(m).insert(k, v@),
{
    assert(pages_view(m.insert(k, v)) =~= pages_view(m).insert(k, v@));
}

/// A fresh page of `PAGE_SIZE` zero bytes.
pub fn zero_page_vec() -> (r: Vec<u8>)
    ensures
        r@ == zero_page(),
{
    let mut page: Vec<u8> = Vec::new();
    let mut i: usize = 0;
    while i < PAGE_SIZE as usize
        invariant
            i <= PAGE_SIZE,
            page@.len() == i,
            forall|j: int| 0 <= j < i ==> page@[j] == 0u8,
        decreases PAGE_SIZE - i,
    {
        page.push(0u8);
        i = i + 1;
    }
    proof {
        assert(page@ =~= zero_page());
    }
    page
}

impl Memory {
    /// An address space with no pages mapped.
    pub fn new() -> (r: Memory)
        ensures
            r@ == Map::<u64, Seq<u8>>::empty(),
            mem_inv(r@),
    {
        let m = Memory { physical_to_host: HashMap::new() };
        proof {
            assert(m@ =~= Map::<u64, Seq<u8>>::empty());
        }
        m
    }

    /// Virtual-to-physical translation: the identity map.
    pub fn translate(&self, address: u64) -> (r: u64)
        ensures
            r == address,
    {
        address
    }

    /// Install one page of memory at the given page index, replacing
    /// whatever was mapped there.
    pub fn insert_page(&mut self, page_index: u64, page: Vec<u8>)
        requires
            page@.len() == PAGE_SIZE,
        ensures
            final(self)@ == old(self)@.insert(page_index, page@),
            mem_inv(old(self)@) ==> mem_inv(final(self)@),
    {
        let ghost pre = self.physical_to_host@;
        let _ = self.physical_to_host.insert(page_index, page);
        proof {
            lemma_pages_view_insert(pre, page_index, page);
        }
    }

    /// Install zero-filled pages covering `[addr, addr + size)`.
    pub fn host_allocate_physical(&mut self, physical_address: u64, size: usize)
        requires
            mem_inv(old(self)@),
            physical_address + size as u64 + PAGE_SIZE - 1 <= u64::MAX,
        ensures
            mem_inv(final(self)@),
            forall|p: u64|
                physical_address / PAGE_SIZE <= p
                    < ((physical_address + size as u64 + PAGE_SIZE - 1) as u64) / PAGE_SIZE
                    ==> #[trigger] final(self)@.contains_key(p) && final(self)@[p]
                    == zero_page(),
            forall|p: u64|
                !(physical_address / PAGE_SIZE <= p
                    < ((physical_address + size as u64 + PAGE_SIZE - 1) as u64) / PAGE_SIZE)
                    ==> #[trigger] final(self)@.contains_key(p) == old(self)@.contains_key(p)
                    && (old(self)@.contains_key(p) ==> final(self)@[p] == old(self)@[p]),
    {
        let first = physical_address / PAGE_SIZE;
        let last = (physical_address + size as u64 + (PAGE_SIZE - 1)) / PAGE_SIZE;
        let ghost pre = self@;
        let mut p = first;
        proof {
            assert(first <= last) by (nonlinear_arith)
                requires
                    first == physical_address / PAGE_SIZE,
                    last == ((physical_address + size as u64 + PAGE_SIZE - 1) as u64)
                        / PAGE_SIZE,
                    physical_address + size as u64 + PAGE_SIZE - 1 <= u64::MAX,
                    PAGE_SIZE > 0,
            ;
        }
        while p < last
            invariant
                first <= p <= last,
                mem_inv(self@),
                forall|q: u64| first <= q < p ==> #[trigger] self@.contains_key(q) && self@[q]
                    == zero_page(),
                forall|q: u64|
                    !(first <= q < p) ==> #[trigger] self@.contains_key(q)
                        == pre.contains_key(q) && (pre.contains_key(q) ==> self@[q] == pre[q]),
            decreases last - p,
        {
            let page = zero_page_vec();
            self.insert_page(p, page);
            p = p + 1;
        }
    }

    /// Whether a page index is mapped.
    pub fn contains_page(&self, page_index: u64) -> (r: bool)
        ensures
            r == self@.contains_key(page_index),
    {
        self.physical_to_host.contains_key(&page_index)
    }

    /// The byte at a virtual address, or nothing when its page is not
    /// mapped.
    pub fn try_read_byte(&self, virtual_address: u64) -> (r: Option<u8>)
        requires
            mem_inv(self@),
        ensures
            match r {
                Some(b) => mem_mapped(self@, virtual_address) && b == mem_byte(
                    self@,
                    virtual_address,
                ),
                None => !mem_mapped(self@, virtual_address),
            },
    {
        let page_index = self.translate(virtual_address) / PAGE_SIZE;
        match self.physical_to_host.get(&page_index) {
            Some(page) => {
                proof {
                    assert(self@.contains_key(page_index));
                    assert(self@[page_index] == page@);
                    assert(0 <= virtual_address % PAGE_SIZE < PAGE_SIZE) by (nonlinear_arith)
                        requires PAGE_SIZE > 0,
                    ;
                }
                let offset = (virtual_address % PAGE_SIZE) as usize;
                Some(page[offset])
            },
            None => {
                proof {
                    assert(!self@.contains_key(page_index));
                }
                None
            },
        }
    }

    /// The byte at a mapped virtual address.
    pub fn read_byte(&self, virtual_address: u64) -> (r: u8)
        requires
            mem_inv(self@),
            mem_mapped(self@, virtual_address),
        ensures
            r == mem_byte(self@, virtual_address),
    {
        match self.try_read_byte(virtual_address) {
            Some(b) => b,
            None => unreached(),
        }
    }

    /// Store one byte, or report failure when the page is not mapped.
    pub fn try_write_byte(&mut self, virtual_address: u64, value: u8) -> (r: bool)
        requires
            mem_inv(old(self)@),
        ensures
            mem_inv(final(self)@),
            r == mem_mapped(old(self)@, virtual_address),
            r ==> final(self)@ == mem_write_byte(old(self)@, virtual_address, value),
            !r ==> final(self)@ == old(self)@,
    {
        let page_index = self.translate(virtual_address) / PAGE_SIZE;
        let ghost pre = self.physical_to_host@;
        match self.physical_to_host.remove(&page_index) {
            Some(mut page) => {
                proof {
                    assert(pages_view(pre).contains_key(page_index));
                    assert(pages_view(pre)[page_index] == page@);
                    assert(0 <= virtual_address % PAGE_SIZE < PAGE_SIZE) by (nonlinear_arith)
                        requires PAGE_SIZE > 0,
                    ;
                }
                let offset = (virtual_address % PAGE_SIZE) as usize;
                page.set(offset, value);
                let ghost mid = self.physical_to_host@;
                self.insert_page(page_index, page);
                proof {
                    assert(final(self)@ =~= mem_write_byte(pages_view(pre), virtual_address,
                        value));
                    lemma_mem_write_byte(pages_view(pre), virtual_address, value);
                }
                true
            },
            None => {
                proof {
                    assert(final(self)@ =~= pages_view(pre));
                }
                false
            },
        }
    }

    /// Store one byte at a mapped virtual address.
    pub fn write_byte(&mut self, virtual_address: u64, value: u8)
        requires
            mem_inv(old(self)@),
            mem_mapped(old(self)@, virtual_address),
        ensures
            mem_inv(final(self)@),
            final(self)@ == mem_write_byte(old(self)@, virtual_address, value),
    {
        let _ = self.try_write_byte(virtual_address, value);
    }

    /// Whether every byte of `[va, va + n)` lies on a mapped page.
    pub fn range_is_mapped(&self, virtual_address: u64, n: u64) -> (r: bool)
        requires
            mem_inv(self@),
        ensures
            r == mem_range_mapped(self@, virtual_address, n),
    {
        let mut i: u64 = 0;
        while i < n
            invariant
                i <= n,
                mem_inv(self@),
                forall|j: u64| j < i ==> mem_mapped(
                    self@,
                    #[trigger] virtual_address.wrapping_add(j),
                ),
            decreases n - i,
        {
            let a = virtual_address.wrapping_add(i);
            let page_index = a / PAGE_SIZE;
            if !self.physical_to_host.contains_key(&page_index) {
                proof {
                    assert(!self@.contains_key(page_index));
                    assert(!mem_mapped(self@, virtual_address.wrapping_add(i)));
                }
                return false;
            }
            proof {
                assert(self@.contains_key(page_index));
            }
            i = i + 1;
        }
        true
    }

    /// Read `n` consecutive bytes starting at a mapped range.
    pub fn read_bytes(&self, virtual_address: u64, n: u64) -> (r: Vec<u8>)
        requires
            mem_inv(self@),
            mem_range_mapped(self@, virtual_address, n),
        ensures
            r@.len() == n,
            forall|i: u64| i < n ==> r@[i as int] == mem_byte(
                self@,
                #[trigger] virtual_address.wrapping_add(i),
            ),
    {
        let mut out: Vec<u8> = Vec::new();
        let mut i: u64 = 0;
        while i < n
            invariant
                i <= n,
                mem_inv(self@),
                mem_range_mapped(self@, virtual_address, n),
                out@.len() == i,
                forall|j: u64| j < i ==> out@[j as int] == mem_byte(
                    self@,
                    #[trigger] virtual_address.wrapping_add(j),
                ),
            decreases n - i,
        {
            let a = virtual_address.wrapping_add(i);
            proof {
                assert(mem_mapped(self@, virtual_address.wrapping_add(i)));
            }
            out.push(self.read_byte(a));
            i = i + 1;
        }
        out
    }

    /// Read `n` consecutive bytes, or nothing when any of them lies on
    /// an unmapped page.
    pub fn try_read_bytes(&self, virtual_address: u64, n: u64) -> (r: Option<Vec<u8>>)
        requires
            mem_inv(self@),
        ensures
            match r {
                Some(v) => {
                    &&& mem_range_mapped(self@, virtual_address, n)
                    &&& v@.len() == n
                    &&& forall|i: u64| i < n ==> v@[i as int] == mem_byte(
                        self@,
                        #[trigger] virtual_address.wrapping_add(i),
                    )
                },
                None => !mem_range_mapped(self@, virtual_address, n),
            },
    {
        if self.range_is_mapped(virtual_address, n) {
            Some(self.read_bytes(virtual_address, n))
        } else {
            None
        }
    }

    /// Write the bytes of a slice one after another starting at `va`,
    /// or report failure (and change nothing) when any target page is
    /// not mapped.
    pub fn try_write_bytes(&mut self, virtual_address: u64, bytes: &[u8]) -> (r: bool)
        requires
            mem_inv(old(self)@),
            bytes@.len() < 0x1_0000_0000,
        ensures
            mem_inv(final(self)@),
            r == mem_range_mapped(old(self)@, virtual_address, bytes@.len() as u64),
            r ==> final(self)@ == mem_write_bytes(old(self)@, virtual_address, bytes@),
            !r ==> final(self)@ == old(self)@,
    {
        let n = bytes.len() as u64;
        if !self.range_is_mapped(virtual_address, n) {
            return false;
        }
        let ghost pre = self@;
        let mut i: usize = 0;
        while i < bytes.len()
            invariant
                i <= bytes@.len(),
                bytes@.len() < 0x1_0000_0000,
                mem_inv(self@),
                mem_inv(pre),
                mem_range_mapped(pre, virtual_address, bytes@.len() as u64),
                self@ == mem_write_bytes(pre, virtual_address, bytes@.take(i as int)),
            decreases bytes@.len() - i,
        {
            proof {
                lemma_mem_write_bytes(pre, virtual_address, bytes@.take(i as int));
                assert(mem_mapped(pre, virtual_address.wrapping_add(i as u64)));
                assert(self@.dom() == pre.dom());
                assert(mem_mapped(self@, virtual_address.wrapping_add(i as u64)));
            }
            let a = virtual_address.wrapping_add(i as u64);
            self.write_byte(a, bytes[i]);
            proof {
                lemma_mem_write_bytes_snoc(pre, virtual_address, bytes@, i as u64);
            }
            i = i + 1;
        }
        proof {
            assert(bytes@.take(bytes@.len() as int) =~= bytes@);
        }
        true
    }

    /// Write the bytes of a slice at a mapped range.
    pub fn write_unaligned_bytes(&mut self, virtual_address: u64, bytes: &[u8])
        requires
            mem_inv(old(self)@),
            bytes@.len() < 0x1_0000_0000,
            mem_range_mapped(old(self)@, virtual_address, bytes@.len() as u64),
        ensures
            mem_inv(final(self)@),
            final(self)@ == mem_write_bytes(old(self)@, virtual_address, bytes@),
    {
        let _ = self.try_write_bytes(virtual_address, bytes);
    }
}

/// The little-endian 16-bit word starting at a virtual address.
pub open spec fn mem_u16_le(m: MemView, va: u64) -> u16 {
    (mem_byte(m, va) as u16) | ((mem_byte(m, va.wrapping_add(1)) as u16) << 8)
}

/// The little-endian 32-bit word starting at a virtual address.
pub open spec fn mem_u32_le(m: MemView, va: u64) -> u32 {
    (mem_byte(m, va) as u32) | ((mem_byte(m, va.wrapping_add(1)) as u32) << 8) | ((mem_byte(
        m,
        va.wrapping_add(2),
    ) as u32) << 16) | ((mem_byte(m, va.wrapping_add(3)) as u32) << 24)
}

/// The little-endian 64-bit word starting at a virtual address.
pub open spec fn mem_u64_le(m: MemView, va: u64) -> u64 {
    (mem_byte(m, va) as u64) | ((mem_byte(m, va.wrapping_add(1)) as u64) << 8) | ((mem_byte(
        m,
        va.wrapping_add(2),
    ) as u64) << 16) | ((mem_byte(m, va.wrapping_add(3)) as u64) << 24) | ((mem_byte(
        m,
        va.wrapping_add(4),
    ) as u64) << 32) | ((mem_byte(m, va.wrapping_add(5)) as u64) << 40) | ((mem_byte(
        m,
        va.wrapping_add(6),
    ) as u64) << 48) | ((mem_byte(m, va.wrapping_add(7)) as u64) << 56)
}

/// The little-endian 128-bit word starting at a virtual address.
pub open spec fn mem_u128_le(m: MemView, va: u64) -> u128 {
    (mem_u64_le(m, va) as u128) | ((mem_u64_le(m, va.wrapping_add(8)) as u128) << 64)
}

/// The two little-endian bytes of a 16-bit word.
pub open spec fn le_bytes_u16(v: u16) -> Seq<u8> {
    seq![v as u8, (v >> 8) as u8]
}

/// The four little-endian bytes of a 32-bit word.
pub open spec fn le_bytes_u32(v: u32) -> Seq<u8> {
    seq![v as u8, (v >> 8) as u8, (v >> 16) as u8, (v >> 24) as u8]
}

/// The eight little-endian bytes of a 64-bit word.
pub open spec fn le_bytes_u64(v: u64) -> Seq<u8> {
    seq![
        v as u8,
        (v >> 8) as u8,
        (v >> 16) as u8,
        (v >> 24) as u8,
        (v >> 32) as u8,
        (v >> 40) as u8,
        (v >> 48) as u8,
        (v >> 56) as u8,
    ]
}

/// The sixteen little-endian bytes of a 128-bit word.
pub open spec fn le_bytes_u128(v: u128) -> Seq<u8> {
    le_bytes_u64(v as u64) + le_bytes_u64((v >> 64) as u64)
}

/// Reassembling the little-endian bytes of a 64-bit word gives the
/// word back.
pub proof fn lemma_u64_le_bytes_roundtrip(v: u64)
    ensures
        ((v as u8) as u64) | (((v >> 8) as u8 as u64) << 8) | (((v >> 16) as u8 as u64) << 16)
            | (((v >> 24) as u8 as u64) << 24) | (((v >> 32) as u8 as u64) << 32) | (((v
            >> 40) as u8 as u64) << 40) | (((v >> 48) as u8 as u64) << 48) | (((v
            >> 56) as u8 as u64) << 56) == v,
{
    assert(((v as u8) as u64) | (((v >> 8) as u8 as u64) << 8) | (((v >> 16) as u8 as u64)
        << 16) | (((v >> 24) as u8 as u64) << 24) | (((v >> 32) as u8 as u64) << 32) | (((v
        >> 40) as u8 as u64) << 40) | (((v >> 48) as u8 as u64) << 48) | (((v
        >> 56) as u8 as u64) << 56) == v) by (bit_vector);
}

/// Writing the little-endian bytes of a 64-bit word and reading the
/// word back at the same address returns the word.
pub proof fn lemma_u64_write_read(m: MemView, va: u64, v: u64)
    requires
        mem_inv(m),
        mem_range_mapped(m, va, 8),
    ensures
        mem_u64_le(mem_write_bytes(m, va, le_bytes_u64(v)), va) == v,
{
    let post = mem_write_bytes(m, va, le_bytes_u64(v));
    lemma_mem_write_bytes(m, va, le_bytes_u64(v));
    assert(va.wrapping_add(0) == va);
    assert(mem_byte(post, va) == le_bytes_u64(v)[0]);
    assert(mem_byte(post, va.wrapping_add(1)) == le_bytes_u64(v)[1]);
    assert(mem_byte(post, va.wrapping_add(2)) == le_bytes_u64(v)[2]);
    assert(mem_byte(post, va.wrapping_add(3)) == le_bytes_u64(v)[3]);
    assert(mem_byte(post, va.wrapping_add(4)) == le_bytes_u64(v)[4]);
    assert(mem_byte(post, va.wrapping_add(5)) == le_bytes_u64(v)[5]);
    assert(mem_byte(post, va.wrapping_add(6)) == le_bytes_u64(v)[6]);
    assert(mem_byte(post, va.wrapping_add(7)) == le_bytes_u64(v)[7]);
    lemma_u64_le_bytes_roundtrip(v);
}

impl Memory {
    /// Read a little-endian 16-bit word, unaligned access allowed.
    pub fn try_read_u16(&self, va: u64) -> (r: Option<u16>)
        requires
            mem_inv(self@),
        ensures
            match r {
                Some(v) => mem_range_mapped(self@, va, 2) && v == mem_u16_le(self@, va),
                None => !mem_range_mapped(self@, va, 2),
            },
    {
        match self.try_read_bytes(va, 2) {
            Some(b) => {
                proof {
                    assert(b@[0] == mem_byte(self@, va.wrapping_add(0)));
                    assert(va.wrapping_add(0) == va);
                }
                Some((b[0] as u16) | ((b[1] as u16) << 8u16))
            },
            None => None,
        }
    }

    /// Read a little-endian 32-bit word, unaligned access allowed.
    pub fn try_read_u32(&self, va: u64) -> (r: Option<u32>)
        requires
            mem_inv(self@),
        ensures
            match r {
                Some(v) => mem_range_mapped(self@, va, 4) && v == mem_u32_le(self@, va),
                None => !mem_range_mapped(self@, va, 4),
            },
    {
        match self.try_read_bytes(va, 4) {
            Some(b) => {
                proof {
                    assert(b@[0] == mem_byte(self@, va.wrapping_add(0)));
                    assert(va.wrapping_add(0) == va);
                }
                Some(
                    (b[0] as u32) | ((b[1] as u32) << 8u32) | ((b[2] as u32) << 16u32) | ((
                    b[3] as u32) << 24u32),
                )
            },
            None => None,
        }
    }

    /// Read a little-endian 64-bit word, unaligned access allowed.
    pub fn try_read_u64(&self, va: u64) -> (r: Option<u64>)
        requires
            mem_inv(self@),
        ensures
            match r {
                Some(v) => mem_range_mapped(self@, va, 8) && v == mem_u64_le(self@, va),
                None => !mem_range_mapped(self@, va, 8),
            },
    {
        match self.try_read_bytes(va, 8) {
            Some(b) => {
                proof {
                    assert(b@[0] == mem_byte(self@, va.wrapping_add(0)));
                    assert(va.wrapping_add(0) == va);
                }
                Some(
                    (b[0] as u64) | ((b[1] as u64) << 8u64) | ((b[2] as u64) << 16u64) | ((
                    b[3] as u64) << 24u64) | ((b[4] as u64) << 32u64) | ((b[5] as u64)
                        << 40u64) | ((b[6] as u64) << 48u64) | ((b[7] as u64) << 56u64),
                )
            },
            None => None,
        }
    }

    /// Read a little-endian 128-bit word, unaligned access allowed.
    pub fn try_read_u128(&self, va: u64) -> (r: Option<u128>)
        requires
            mem_inv(self@),
        ensures
            match r {
                Some(v) => mem_range_mapped(self@, va, 8) && mem_range_mapped(
                    self@,
                    va.wrapping_add(8),
                    8,
                ) && v == mem_u128_le(self@, va),
                None => !(mem_range_mapped(self@, va, 8) && mem_range_mapped(
                    self@,
                    va.wrapping_add(8),
                    8,
                )),
            },
    {
        let lo = match self.try_read_u64(va) {
            Some(v) => v,
            None => {
                return None;
            },
        };
        let hi = match self.try_read_u64(va.wrapping_add(8)) {
            Some(v) => v,
            None => {
                return None;
            },
        };
        Some((lo as u128) | ((hi as u128) << 64u128))
    }

    /// Store a little-endian 16-bit word, or change nothing when a
    /// target page is unmapped.
    pub fn try_write_u16(&mut self, va: u64, v: u16) -> (r: bool)
        requires
            mem_inv(old(self)@),
        ensures
            mem_inv(final(self)@),
            r == mem_range_mapped(old(self)@, va, 2),
            r ==> final(self)@ == mem_write_bytes(old(self)@, va, le_bytes_u16(v)),
            !r ==> final(self)@ == old(self)@,
    {
        let bytes: [u8; 2] = [v as u8, (v >> 8u16) as u8];
        proof {
            assert(bytes@ =~= le_bytes_u16(v));
        }
        self.try_write_bytes(va, bytes.as_slice())
    }

    /// Store a little-endian 32-bit word, or change nothing when a
    /// target page is unmapped.
    pub fn try_write_u32(&mut self, va: u64, v: u32) -> (r: bool)
        requires
            mem_inv(old(self)@),
        ensures
            mem_inv(final(self)@),
            r == mem_range_mapped(old(self)@, va, 4),
            r ==> final(self)@ == mem_write_bytes(old(self)@, va, le_bytes_u32(v)),
            !r ==> final(self)@ == old(self)@,
    {
        let bytes: [u8; 4] = [v as u8, (v >> 8u32) as u8, (v >> 16u32) as u8, (v >> 24u32) as u8];
        proof {
            assert(bytes@ =~= le_bytes_u32(v));
        }
        self.try_write_bytes(va, bytes.as_slice())
    }

    /// Store a little-endian 64-bit word, or change nothing when a
    /// target page is unmapped.
    pub fn try_write_u64(&mut self, va: u64, v: u64) -> (r: bool)
        requires
            mem_inv(old(self)@),
        ensures
            mem_inv(final(self)@),
            r == mem_range_mapped(old(self)@, va, 8),
            r ==> final(self)@ == mem_write_bytes(old(self)@, va, le_bytes_u64(v)),
            !r ==> final(self)@ == old(self)@,
    {
        let bytes: [u8; 8] = [
            v as u8,
            (v >> 8u64) as u8,
            (v >> 16u64) as u8,
            (v >> 24u64) as u8,
            (v >> 32u64) as u8,
            (v >> 40u64) as u8,
            (v >> 48u64) as u8,
            (v >> 56u64) as u8,
        ];
        proof {
            assert(bytes@ =~= le_bytes_u64(v));
        }
        self.try_write_bytes(va, bytes.as_slice())
    }

    /// Store a little-endian 128-bit word, or change nothing when a
    /// target page is unmapped.
    pub fn try_write_u128(&mut self, va: u64, v: u128) -> (r: bool)
        requires
            mem_inv(old(self)@),
        ensures
            mem_inv(final(self)@),
            r == mem_range_mapped(old(self)@, va, 16),
            r ==> final(self)@ == mem_write_bytes(old(self)@, va, le_bytes_u128(v)),
            !r ==> final(self)@ == old(self)@,
    {
        let lo = v as u64;
        let hi = (v >> 64u128) as u64;
        let bytes: [u8; 16] = [
            lo as u8,
            (lo >> 8u64) as u8,
            (lo >> 16u64) as u8,
            (lo >> 24u64) as u8,
            (lo >> 32u64) as u8,
            (lo >> 40u64) as u8,
            (lo >> 48u64) as u8,
            (lo >> 56u64) as u8,
            hi as u8,
            (hi >> 8u64) as u8,
            (hi >> 16u64) as u8,
            (hi >> 24u64) as u8,
            (hi >> 32u64) as u8,
            (hi >> 40u64) as u8,
            (hi >> 48u64) as u8,
            (hi >> 56u64) as u8,
        ];
        proof {
            assert(bytes@ =~= le_bytes_u128(v));
        }
        self.try_write_bytes(va, bytes.as_slice())
    }
}

/// Writing a one-byte sequence is writing one byte.
pub proof fn lemma_mem_write_single(m: MemView, va: u64, b: u8)
    ensures
        mem_write_bytes(m, va, seq![b]) == mem_write_byte(m, va, b),
{
    let s = seq![b];
    let m1 = mem_write_byte(m, va, b);
    assert(s.len() == 1 && s[0] == b);
    assert(s.skip(1) =~= Seq::<u8>::empty());
    assert(mem_write_bytes(m1, va.wrapping_add(1), s.skip(1)) == m1);
    assert(mem_write_bytes(m, va, s) == m1);
}

} // verus!
