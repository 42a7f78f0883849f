//! The one process state of a guest: it comes into being with the first call
//! that needs it, and every call borrows it for as long as it runs.

use vstd::prelude::*;
use crate::arena::spec_bump_arena_size;
use crate::state::{
    AllocationState, State,
};

verus! {

/// Who holds the process state.
#[derive(Clone, Copy, PartialEq, Eq, Structural, Debug)]
pub enum Borrow {
    /// Nobody.
    Free,
    /// This many readers.
    Shared(usize),
    /// One writer, who has taken the state with him.
    Exclusive,
}

/// The place of the process state.
pub struct Singleton {
    allocation: AllocationState,
    state: Option<State>,
    borrow: Borrow,
}

impl Singleton {
    /// How far the memory for the state has come into being.
    pub closed spec fn allocation(&self) -> AllocationState {
        self.allocation
    }

    /// The state, while it exists and no writer has taken it.
    pub closed spec fn state(&self) -> Option<State> {
        self.state
    }

    /// Who holds the state.
    pub closed spec fn borrow(&self) -> Borrow {
        self.borrow
    }

    /// The state is in its place exactly while no writer holds it; it is well
    /// formed; and once it exists its memory is marked as allocated.
    pub open spec fn wf(&self) -> bool {
        &&& (self.state() matches Some(state) ==> state.wf() && self.allocation()
            == AllocationState::StateAllocated)
        &&& (self.borrow() == Borrow::Exclusive ==> self.state() is None && self.allocation()
            == AllocationState::StateAllocated)
        &&& (self.borrow() matches Borrow::Shared(readers) ==> readers > 0 && self.state() is Some)
    }

    /// Whether the state exists, in its place or with a writer.
    pub open spec fn is_made(&self) -> bool {
        self.state() is Some || self.borrow() == Borrow::Exclusive
    }

    /// Whether a call can have the state: the state exists or its memory is
    /// ready for it; and nobody holds the state in a way that excludes the
    /// call.
    pub open spec fn spec_can_acquire(&self, exclusive: bool) -> bool {
        &&& self.is_made() || self.allocation() == AllocationState::StackAllocated
        &&& match self.borrow() {
            Borrow::Free => true,
            Borrow::Shared(readers) => !exclusive && readers < usize::MAX,
            Borrow::Exclusive => false,
        }
    }

    /// A place without a state.
    pub fn new(allocation: AllocationState) -> (r: Self)
        requires
            allocation != AllocationState::StateAllocated,
        ensures
            r.wf(),
            r.allocation() == allocation,
            r.state() is None,
            r.borrow() == Borrow::Free,
    {
        Singleton { allocation, state: None, borrow: Borrow::Free }
    }

    /// How far the memory for the state has come into being.
    pub fn get_allocation_state(&self) -> (r: AllocationState)
        ensures
            r == self.allocation(),
    {
        self.allocation
    }

    /// Records how far the memory for the state has come into being, while
    /// there is no state yet.
    pub fn set_allocation_state(&mut self, allocation: AllocationState)
        requires
            old(self).wf(),
            !old(self).is_made(),
            allocation != AllocationState::StateAllocated,
        ensures
            final(self).wf(),
            final(self).allocation() == allocation,
            final(self).state() is None,
            final(self).borrow() == old(self).borrow(),
    {
        self.allocation = allocation;
    }

    /// Decides whether a call can have the state.
    pub fn can_acquire(&self, exclusive: bool) -> (r: bool)
        requires
            self.wf(),
        ensures
            r == self.spec_can_acquire(exclusive),
    {
        let made: bool = self.state.is_some() || match self.borrow {
            Borrow::Exclusive => true,
            _ => false,
        };
        let ready: bool = made || match self.allocation {
            AllocationState::StackAllocated => true,
            _ => false,
        };
        ready && match self.borrow {
            Borrow::Free => true,
            Borrow::Shared(readers) => !exclusive && readers < usize::MAX,
            Borrow::Exclusive => false,
        }
    }

    fn ensure(&mut self, arena_base: usize)
        requires
            old(self).wf(),
            old(self).borrow() != Borrow::Exclusive,
            old(self).state() is Some || old(self).allocation() == AllocationState::StackAllocated,
            arena_base + spec_bump_arena_size() <= usize::MAX,
        ensures
            final(self).wf(),
            final(self).borrow() == old(self).borrow(),
            final(self).allocation() == AllocationState::StateAllocated,
            final(self).state() is Some,
            old(self).state() is Some ==> final(self).state() == old(self).state(),
            old(self).state() is None ==> (final(self).state()->0).is_new(arena_base),
    {
        if self.state.is_none() {
            self.allocation = AllocationState::StateAllocating;
            let state = State::new(arena_base);
            self.allocation = AllocationState::StateAllocated;
            self.state = Some(state);
        }
    }

    /// Borrows the state for reading and checks its canaries. A state that
    /// does not exist yet is made as `State::new` makes it, with its arena at
    /// `arena_base`; a state that exists is lent as it is. Returns whether the
    /// canaries are intact; where they are not, memory is corrupted and the
    /// guest cannot go on.
    pub fn acquire(&mut self, arena_base: usize) -> (r: (&State, bool))
        requires
            old(self).wf(),
            old(self).spec_can_acquire(false),
            arena_base + spec_bump_arena_size() <= usize::MAX,
        ensures
            final(self).wf(),
            final(self).allocation() == AllocationState::StateAllocated,
            final(self).state() == Some(*r.0),
            old(self).state() is Some ==> final(self).state() == old(self).state(),
            old(self).state() is None ==> r.0.is_new(arena_base),
            final(self).borrow() == (match old(self).borrow() {
                Borrow::Shared(readers) => Borrow::Shared((readers + 1) as usize),
                _ => Borrow::Shared(1),
            }),
            r.0.wf(),
            r.1 == r.0.canaries_intact(),
    {
        self.ensure(arena_base);
        self.borrow = match self.borrow {
            Borrow::Shared(readers) => Borrow::Shared(readers + 1),
            _ => Borrow::Shared(1),
        };
        match &self.state {
            Some(state) => {
                let intact = state.check_canaries();
                (state, intact)
            },
            None => vstd::pervasive::unreached(),
        }
    }

    /// Gives back a borrow for reading.
    pub fn release(&mut self)
        requires
            old(self).wf(),
            old(self).borrow() is Shared,
        ensures
            final(self).wf(),
            final(self).allocation() == old(self).allocation(),
            final(self).state() == old(self).state(),
            final(self).borrow() == (match old(self).borrow() {
                Borrow::Shared(readers) => if readers > 1 {
                    Borrow::Shared((readers - 1) as usize)
                } else {
                    Borrow::Free
                },
                _ => Borrow::Free,
            }),
    {
        self.borrow = match self.borrow {
            Borrow::Shared(readers) => {
                if readers > 1 {
                    Borrow::Shared(readers - 1)
                } else {
                    Borrow::Free
                }
            },
            _ => Borrow::Free,
        };
    }

    /// Borrows the state for writing: the state is handed out, and nobody
    /// else can have it until it is back. A state that does not exist yet is
    /// made as `State::new` makes it, with its arena at `arena_base`; a state
    /// that exists is handed out as it is. Returns the state and whether its
    /// canaries are intact.
    pub fn acquire_mut(&mut self, arena_base: usize) -> (r: (State, bool))
        requires
            old(self).wf(),
            old(self).spec_can_acquire(true),
            arena_base + spec_bump_arena_size() <= usize::MAX,
        ensures
            final(self).wf(),
            final(self).allocation() == AllocationState::StateAllocated,
            final(self).state() is None,
            final(self).borrow() == Borrow::Exclusive,
            old(self).state() is Some ==> old(self).state() == Some(r.0),
            old(self).state() is None ==> r.0.is_new(arena_base),
            r.0.wf(),
            r.1 == r.0.canaries_intact(),
    {
        self.ensure(arena_base);
        self.borrow = Borrow::Exclusive;
        match self.state.take() {
            Some(state) => {
                let intact = state.check_canaries();
                (state, intact)
            },
            None => vstd::pervasive::unreached(),
        }
    }

    /// Gives back the state after a borrow for writing.
    pub fn release_mut(&mut self, state: State)
        requires
            old(self).wf(),
            old(self).borrow() == Borrow::Exclusive,
            state.wf(),
        ensures
            final(self).wf(),
            final(self).allocation() == old(self).allocation(),
            final(self).state() == Some(state),
            final(self).borrow() == Borrow::Free,
    {
        self.state = Some(state);
        self.borrow = Borrow::Free;
    }
}

} // verus!
