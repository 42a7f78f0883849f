//! The bump arena: a fixed region of memory that is handed out front to back
//! and never taken back.

use vstd::prelude::*;

verus! {

/// The size of the single page that holds the whole process state.
pub const PAGE_SIZE: usize = 65536;

/// The longest path the adapter handles.
pub const PATH_MAX: usize = 4096;

/// The number of slots in the descriptor table.
pub const MAX_DESCRIPTORS: usize = 128;

/// The longest entry name that the directory cache can hold.
pub const DIRENT_CACHE: usize = 256;

/// The bytes that one slot of the descriptor table takes in the state page.
pub const DESCRIPTOR_SIZE: usize = 48;

/// The bytes that the directory cache takes in the state page.
pub const DIRENT_CACHE_SIZE: usize = 304;

/// The size of a pointer of the guest.
pub const WORD_SIZE: usize = 4;

/// The number of pointer-sized words of bookkeeping in the state page.
pub const STATE_WORDS: usize = 25;

/// The capacity of the arena: what is left of the state page once the path
/// buffer, the descriptor table, the directory cache and the bookkeeping words
/// are taken out.
pub open spec fn spec_bump_arena_size() -> int {
    PAGE_SIZE - PATH_MAX - DESCRIPTOR_SIZE * MAX_DESCRIPTORS - DIRENT_CACHE_SIZE - STATE_WORDS
        * WORD_SIZE
}

/// Computes the capacity of the arena.
pub fn bump_arena_size() -> (r: usize)
    ensures
        r == spec_bump_arena_size(),
        r == 54892,
{
    let mut start: usize = PAGE_SIZE;
    start = start - PATH_MAX;
    start = start - DESCRIPTOR_SIZE * MAX_DESCRIPTORS;
    start = start - DIRENT_CACHE_SIZE;
    start = start - STATE_WORDS * WORD_SIZE;
    start
}

/// Whether `align` is a power of two.
pub open spec fn is_power_of_two(align: usize) -> bool {
    align > 0 && align & ((align - 1) as usize) == 0
}

/// The least multiple of `align` that is not below `ptr`.
pub open spec fn spec_align_to(ptr: int, align: int) -> int {
    ((ptr + align - 1) / align) * align
}

/// Decides whether `align` is a power of two.
pub fn check_power_of_two(align: usize) -> (r: bool)
    ensures
        r == is_power_of_two(align),
{
    align > 0 && align & (align - 1) == 0
}

/// Rounds `ptr` up to the next multiple of `align`, which must be a power of
/// two. The result must fit the address space.
pub fn align_to(ptr: usize, align: usize) -> (r: usize)
    requires
        is_power_of_two(align),
        spec_align_to(ptr as int, align as int) <= usize::MAX,
    ensures
        r == spec_align_to(ptr as int, align as int),
        r % align == 0,
        ptr <= r < ptr + align,
{
    let rem: usize = ptr % align;
    proof {
        lemma_align_up_steps(ptr as int, align as int);
    }
    if rem == 0 {
        ptr
    } else {
        ptr + (align - rem)
    }
}

/// The round-up of `ptr` is `ptr` itself where `ptr` is a multiple of `align`,
/// and otherwise `ptr` plus what it lacks to the next multiple.
pub proof fn lemma_align_up_steps(ptr: int, align: int)
    requires
        align > 0,
        ptr >= 0,
    ensures
        ptr % align == 0 ==> spec_align_to(ptr, align) == ptr,
        ptr % align != 0 ==> spec_align_to(ptr, align) == ptr + (align - ptr % align),
        spec_align_to(ptr, align) % align == 0,
        ptr <= spec_align_to(ptr, align) < ptr + align,
{
    let rem = ptr % align;
    let q = ptr / align;
    vstd::arithmetic::div_mod::lemma_fundamental_div_mod(ptr, align);
    vstd::arithmetic::div_mod::lemma_mod_bound(ptr, align);
    let r = if rem == 0 { ptr } else { ptr + (align - rem) };
    if rem != 0 {
        assert(r == align * (q + 1)) by (nonlinear_arith)
            requires
                ptr == align * q + rem,
                r == ptr + align - rem,
        ;
        vstd::arithmetic::div_mod::lemma_mod_multiples_basic(q + 1, align);
        assert(align * (q + 1) == (q + 1) * align) by (nonlinear_arith);
    }
    lemma_align_up_unique(ptr, align, r);
}

/// A multiple of `align` in the window of `align` numbers that starts at `ptr`
/// is the round-up of `ptr`.
pub proof fn lemma_align_up_unique(ptr: int, align: int, r: int)
    requires
        align > 0,
        ptr >= 0,
        r % align == 0,
        ptr <= r < ptr + align,
    ensures
        r == spec_align_to(ptr, align),
{
    let q = (ptr + align - 1) / align;
    vstd::arithmetic::div_mod::lemma_fundamental_div_mod(ptr + align - 1, align);
    vstd::arithmetic::div_mod::lemma_fundamental_div_mod(r, align);
    let k = r / align;
    assert(r == align * k);
    assert(ptr + align - 1 == align * q + (ptr + align - 1) % align);
    vstd::arithmetic::div_mod::lemma_mod_bound(ptr + align - 1, align);
    // align * q <= ptr + align - 1 < align * q + align, and ptr <= align * k < ptr + align
    assert(k == q) by (nonlinear_arith)
        requires
            align > 0,
            align * q <= ptr + align - 1,
            ptr + align - 1 < align * q + align,
            ptr <= align * k,
            align * k < ptr + align,
    ;
    assert(q * align == align * q) by (nonlinear_arith);
}

/// A fixed region of memory, `bump_arena_size()` bytes from `base`, of which
/// the first `position` bytes have been handed out.
pub struct BumpArena {
    base: usize,
    position: usize,
}

impl BumpArena {
    /// The address of the first byte of the region.
    pub closed spec fn base(&self) -> int {
        self.base as int
    }

    /// How many bytes from the start of the region are taken.
    pub closed spec fn position(&self) -> int {
        self.position as int
    }

    /// The taken part never exceeds the capacity, and the region lies within
    /// the address space.
    pub open spec fn wf(&self) -> bool {
        &&& 0 <= self.base()
        &&& 0 <= self.position() <= spec_bump_arena_size()
        &&& self.base() + spec_bump_arena_size() <= usize::MAX
    }

    /// The address that an allocation with this alignment would return.
    pub open spec fn next(&self, align: usize) -> int {
        spec_align_to(self.base() + self.position(), align as int)
    }

    /// Whether an allocation of `size` bytes with this alignment still lies
    /// within the region.
    pub open spec fn fits(&self, align: usize, size: usize) -> bool {
        self.next(align) + size <= self.base() + spec_bump_arena_size()
    }

    /// An arena over the region that starts at `base`, with nothing taken.
    pub fn new(base: usize) -> (r: Self)
        requires
            base + spec_bump_arena_size() <= usize::MAX,
        ensures
            r.wf(),
            r.base() == base,
            r.position() == 0,
    {
        BumpArena { base, position: 0 }
    }

    /// How many bytes from the start of the region are taken.
    pub fn used(&self) -> (r: usize)
        ensures
            r == self.position(),
    {
        self.position
    }

    /// Decides whether `allocate` can serve this request.
    pub fn can_alloc(&self, align: usize, size: usize) -> (r: bool)
        requires
            self.wf(),
            is_power_of_two(align),
        ensures
            r == self.fits(align, size),
    {
        let capacity: usize = bump_arena_size();
        let next: usize = self.base + self.position;
        let rem: usize = next % align;
        proof {
            lemma_align_up_steps(next as int, align as int);
        }
        let pad: usize = if rem == 0 {
            0
        } else {
            align - rem
        };
        let left: usize = capacity - self.position;
        pad <= left && size <= left - pad
    }

    /// Hands out the next `size` bytes at the alignment `align`. The returned
    /// address is the least aligned address at or after everything handed out
    /// before, so no two regions handed out overlap.
    pub fn allocate(&mut self, align: usize, size: usize) -> (r: usize)
        requires
            old(self).wf(),
            is_power_of_two(align),
            old(self).fits(align, size),
        ensures
            final(self).wf(),
            final(self).base() == old(self).base(),
            r == old(self).next(align),
            r % align == 0,
            old(self).base() + old(self).position() <= r,
            r + size <= old(self).base() + spec_bump_arena_size(),
            final(self).position() == r + size - old(self).base(),
    {
        let start: usize = self.base;
        let next: usize = start + self.position;
        proof {
            lemma_align_up_steps(next as int, align as int);
        }
        let alloc: usize = align_to(next, align);
        let offset: usize = alloc - start;
        self.position = offset + size;
        alloc
    }
}

} // verus!
