//! The import allocation coordinator: it decides where the variable-length
//! result of a host operation is written. It serves either one request from a
//! buffer that the caller provided, or any number of requests from an arena,
//! never both at once.

use vstd::prelude::*;
use crate::arena::{
    BumpArena, align_to, is_power_of_two, lemma_align_up_steps, spec_align_to,
};

verus! {

/// What the coordinator currently serves requests from.
#[derive(Clone, Copy, PartialEq, Eq, Structural, Debug)]
pub enum AllocMode {
    /// Nothing: no buffer was provided, or the buffer was used.
    Idle,
    /// The buffer of `len` bytes at the address `ptr`, once.
    Buffer { ptr: usize, len: usize },
    /// The arena, any number of times.
    Arena,
}

/// The coordinator. It holds no memory of its own.
pub struct ImportAlloc {
    mode: AllocMode,
}

/// Whether a request can be served in the given mode: in buffer mode the
/// aligned region must lie within the buffer, in arena mode within the arena;
/// with neither there is nothing to serve it from.
pub open spec fn spec_can_alloc(
    mode: AllocMode,
    arena: BumpArena,
    align: usize,
    size: usize,
) -> bool {
    match mode {
        AllocMode::Idle => false,
        AllocMode::Buffer { ptr, len } => {
            &&& ptr != 0
            &&& ptr + len <= usize::MAX
            &&& spec_align_to(ptr as int, align as int) + size <= ptr + len
        },
        AllocMode::Arena => arena.fits(align, size),
    }
}

impl ImportAlloc {
    /// What the coordinator currently serves requests from.
    pub closed spec fn mode(&self) -> AllocMode {
        self.mode
    }

    /// A coordinator with nothing to serve requests from.
    pub fn new() -> (r: Self)
        ensures
            r.mode() == AllocMode::Idle,
    {
        ImportAlloc { mode: AllocMode::Idle }
    }

    /// What the coordinator currently serves requests from.
    pub fn current_mode(&self) -> (r: AllocMode)
        ensures
            r == self.mode(),
    {
        self.mode
    }

    /// Whether nothing is provided, so that a buffer or the arena may be.
    pub fn is_idle(&self) -> (r: bool)
        ensures
            r == (self.mode() == AllocMode::Idle),
    {
        match self.mode {
            AllocMode::Idle => true,
            _ => false,
        }
    }

    /// Provides the buffer of `len` bytes at the address `buffer` for at most
    /// one request. Nothing else may be provided at this time. A null buffer
    /// provides nothing.
    pub fn enter_buffer(&mut self, buffer: usize, len: usize)
        requires
            old(self).mode() == AllocMode::Idle,
        ensures
            buffer != 0 ==> final(self).mode() == (AllocMode::Buffer { ptr: buffer, len }),
            buffer == 0 ==> final(self).mode() == AllocMode::Idle,
    {
        if buffer != 0 {
            self.mode = AllocMode::Buffer { ptr: buffer, len };
        }
    }

    /// Takes the buffer back, used or not. The arena, if it is provided, stays.
    pub fn exit_buffer(&mut self)
        ensures
            old(self).mode() == AllocMode::Arena ==> final(self).mode() == AllocMode::Arena,
            old(self).mode() != AllocMode::Arena ==> final(self).mode() == AllocMode::Idle,
    {
        match self.mode {
            AllocMode::Arena => {},
            _ => {
                self.mode = AllocMode::Idle;
            },
        }
    }

    /// Provides the arena for any number of requests. Nothing else may be
    /// provided at this time.
    pub fn enter_arena(&mut self)
        requires
            old(self).mode() == AllocMode::Idle,
        ensures
            final(self).mode() == AllocMode::Arena,
    {
        self.mode = AllocMode::Arena;
    }

    /// Takes the arena back. A buffer, if one is provided, stays.
    pub fn exit_arena(&mut self)
        ensures
            old(self).mode() == AllocMode::Arena ==> final(self).mode() == AllocMode::Idle,
            old(self).mode() != AllocMode::Arena ==> final(self).mode() == old(self).mode(),
    {
        match self.mode {
            AllocMode::Arena => {
                self.mode = AllocMode::Idle;
            },
            _ => {},
        }
    }

    /// Decides whether `allocate` can serve this request.
    pub fn can_alloc(&self, arena: &BumpArena, align: usize, size: usize) -> (r: bool)
        requires
            arena.wf(),
            is_power_of_two(align),
        ensures
            r == spec_can_alloc(self.mode(), *arena, align, size),
    {
        match self.mode {
            AllocMode::Idle => false,
            AllocMode::Arena => arena.can_alloc(align, size),
            AllocMode::Buffer { ptr, len } => {
                if ptr == 0 || len > usize::MAX - ptr {
                    return false;
                }
                let rem: usize = ptr % align;
                proof {
                    lemma_align_up_steps(ptr as int, align as int);
                }
                let pad: usize = if rem == 0 {
                    0
                } else {
                    align - rem
                };
                pad <= len && size <= len - pad
            },
        }
    }

    /// Serves one request for `size` bytes at the alignment `align` and
    /// returns the address of the region. In buffer mode the region is the
    /// aligned start of the buffer, and the buffer is used up: nothing more can
    /// be served until a buffer or the arena is provided again. In arena mode
    /// the region comes from the arena, and the arena stays provided.
    pub fn allocate(&mut self, arena: &mut BumpArena, align: usize, size: usize) -> (r: usize)
        requires
            old(arena).wf(),
            is_power_of_two(align),
            spec_can_alloc(old(self).mode(), *old(arena), align, size),
        ensures
            final(arena).wf(),
            final(arena).base() == old(arena).base(),
            r % align == 0,
            match old(self).mode() {
                AllocMode::Idle => false,
                AllocMode::Buffer { ptr, len } => {
                    &&& r == spec_align_to(ptr as int, align as int)
                    &&& ptr <= r
                    &&& r + size <= ptr + len
                    &&& final(self).mode() == AllocMode::Idle
                    &&& *final(arena) == *old(arena)
                },
                AllocMode::Arena => {
                    &&& r == old(arena).next(align)
                    &&& old(arena).base() + old(arena).position() <= r
                    &&& final(arena).position() == r + size - old(arena).base()
                    &&& final(self).mode() == AllocMode::Arena
                },
            },
    {
        match self.mode {
            AllocMode::Arena => arena.allocate(align, size),
            AllocMode::Buffer { ptr, len } => {
                proof {
                    lemma_align_up_steps(ptr as int, align as int);
                }
                let alloc: usize = align_to(ptr, align);
                self.mode = AllocMode::Idle;
                alloc
            },
            AllocMode::Idle => vstd::pervasive::unreached(),
        }
    }
}

/// A buffer serves one request: once `allocate` has returned in buffer mode, no
/// request of any size or alignment can be served.
pub proof fn lemma_buffer_serves_once(arena: BumpArena, align: usize, size: usize)
    ensures
        !spec_can_alloc(AllocMode::Idle, arena, align, size),
{
}

/// In arena mode a request can be served exactly when it fits what is left of
/// the arena.
pub proof fn lemma_arena_serves_while_it_fits(arena: BumpArena, align: usize, size: usize)
    ensures
        spec_can_alloc(AllocMode::Arena, arena, align, size) == arena.fits(align, size),
{
}

} // verus!
