//! A registry: a growing array of values that are known by their index, in
//! which the indices of values that were closed are used again, last closed
//! first. The adapter that runs the other way round, with a guest of the
//! capability interface on a host of the flat interface, keeps its streams and
//! its futures in registries.

use vstd::prelude::*;
use crate::flat::{
    Fd, Filesize,
};
use crate::state::fd_calls::spec_moved;

verus! {

/// One slot of a registry.
pub enum Slot<T> {
    /// A free slot, with the next free slot behind it.
    Free(Option<u32>),
    /// A value.
    Used(T),
}

/// A registry of values of type `T`.
pub struct Registry<T> {
    vec: Vec<Slot<T>>,
    free: Option<u32>,
    chain: Ghost<Seq<u32>>,
}

/// The link that the `i`-th slot of a free list holds.
pub open spec fn next_free(free: Seq<u32>, i: int) -> Option<u32> {
    if i + 1 < free.len() {
        Some(free[i + 1])
    } else {
        None
    }
}

impl<T> View for Registry<T> {
    type V = Seq<Option<T>>;

    closed spec fn view(&self) -> Seq<Option<T>> {
        Seq::new(
            self.vec@.len(),
            |i: int|
                match self.vec@[i] {
                    Slot::Used(value) => Some(value),
                    Slot::Free(_) => None,
                },
        )
    }
}

impl<T> Registry<T> {
    /// The free indices in the order in which they will be used again.
    pub closed spec fn free_list(&self) -> Seq<u32> {
        self.chain@
    }

    /// The free list is exactly the free slots, each once, and the registry
    /// has no more slots than an index can name.
    pub closed spec fn wf(&self) -> bool {
        &&& self.vec@.len() <= u32::MAX
        &&& self.free == (if self.chain@.len() > 0 {
            Some(self.chain@[0])
        } else {
            None
        })
        &&& forall|i: int|
            0 <= i < self.chain@.len() ==> (#[trigger] self.chain@[i]) < self.vec@.len()
                && self.vec@[self.chain@[i] as int] == Slot::<T>::Free(next_free(self.chain@, i))
        &&& self.chain@.no_duplicates()
        &&& forall|k: int|
            0 <= k < self.vec@.len() && (#[trigger] self.vec@[k]) is Free ==> self.chain@.contains(
                k as u32,
            )
    }

    /// Every index of the free list names a free slot, and every free slot is
    /// on the free list.
    pub proof fn lemma_free_list(&self)
        requires
            self.wf(),
        ensures
            self@.len() <= u32::MAX,
            self.free_list().no_duplicates(),
            forall|i: int|
                0 <= i < self.free_list().len() ==> (#[trigger] self.free_list()[i]) < self@.len()
                    && self@[self.free_list()[i] as int] is None,
            forall|k: int|
                0 <= k < self@.len() && (#[trigger] self@[k]) is None ==> self.free_list().contains(
                    k as u32,
                ),
    {
        assert forall|k: int|
            0 <= k < self@.len() && (#[trigger] self@[k]) is None implies self.free_list().contains(
            k as u32,
        ) by {
            assert(self.vec@[k] is Free);
        }
    }

    /// An empty registry.
    pub fn new() -> (r: Self)
        ensures
            r.wf(),
            r@.len() == 0,
            r.free_list().len() == 0,
    {
        Registry { vec: Vec::new(), free: None, chain: Ghost(Seq::empty()) }
    }

    /// The number of slots.
    pub fn len(&self) -> (r: usize)
        ensures
            r == self@.len(),
    {
        self.vec.len()
    }

    /// Whether `index` names a value.
    pub fn is_used(&self, index: u32) -> (r: bool)
        ensures
            r == (index < self@.len() && self@[index as int] is Some),
    {
        if (index as usize) < self.vec.len() {
            match &self.vec[index as usize] {
                Slot::Used(_) => true,
                Slot::Free(_) => false,
            }
        } else {
            false
        }
    }

    /// The value that `index` names.
    pub fn get(&self, index: u32) -> (r: &T)
        requires
            index < self@.len(),
            self@[index as int] is Some,
        ensures
            Some(*r) == self@[index as int],
    {
        match &self.vec[index as usize] {
            Slot::Used(value) => value,
            Slot::Free(_) => vstd::pervasive::unreached(),
        }
    }

    /// Replaces the value that `index` names.
    pub fn set(&mut self, index: u32, value: T)
        requires
            old(self).wf(),
            index < old(self)@.len(),
            old(self)@[index as int] is Some,
        ensures
            final(self).wf(),
            final(self)@ == old(self)@.update(index as int, Some(value)),
            final(self).free_list() == old(self).free_list(),
    {
        self.vec[index as usize] = Slot::Used(value);
        proof {
            assert(self@ =~= old(self)@.update(index as int, Some(value)));
            assert forall|k: int|
                0 <= k < self.vec@.len() && (
                #[trigger] self.vec@[k]) is Free implies self.chain@.contains(k as u32) by {
                assert(old(self).vec@[k] is Free);
            }
            assert forall|i: int| 0 <= i < self.chain@.len() implies (#[trigger] self.chain@[i])
                < self.vec@.len() && self.vec@[self.chain@[i] as int] == Slot::<T>::Free(
                next_free(self.chain@, i),
            ) by {
                assert(old(self).vec@[old(self).chain@[i] as int] is Free);
            }
        }
    }

    /// Whether `create` has room: a slot is free, or an index is left for a
    /// new slot.
    pub fn can_create(&self) -> (r: bool)
        requires
            self.wf(),
        ensures
            r == (self.free_list().len() > 0 || self@.len() < u32::MAX),
    {
        self.free.is_some() || self.vec.len() < u32::MAX as usize
    }

    /// Gives a value an index: the index that was closed last where one is
    /// free, a new index at the end otherwise. The index named no value before,
    /// and every other value keeps its index.
    pub fn create(&mut self, value: T) -> (r: u32)
        requires
            old(self).wf(),
            old(self).free_list().len() > 0 || old(self)@.len() < u32::MAX,
        ensures
            final(self).wf(),
            r == (if old(self).free_list().len() > 0 {
                old(self).free_list()[0]
            } else {
                old(self)@.len() as u32
            }),
            r < old(self)@.len() ==> old(self)@[r as int] is None && final(self)@ == old(
                self,
            )@.update(r as int, Some(value)),
            r >= old(self)@.len() ==> final(self)@ == old(self)@.push(Some(value)),
            final(self).free_list() == (if old(self).free_list().len() > 0 {
                old(self).free_list().drop_first()
            } else {
                old(self).free_list()
            }),
    {
        match self.free {
            Some(index) => {
                let ghost before = self.chain@;
                assert(before[0] == index);
                assert(self.vec@[before[0] as int] == Slot::<T>::Free(next_free(before, 0)));
                let next: Option<u32> = match &self.vec[index as usize] {
                    Slot::Free(next) => *next,
                    Slot::Used(_) => None,
                };
                self.free = next;
                self.vec[index as usize] = Slot::Used(value);
                self.chain = Ghost(before.drop_first());
                proof {
                    let after = self.chain@;
                    assert(self@ =~= old(self)@.update(index as int, Some(value)));
                    assert forall|i: int| 0 <= i < after.len() implies (#[trigger] after[i])
                        < self.vec@.len() && self.vec@[after[i] as int] == Slot::<T>::Free(
                        next_free(after, i),
                    ) by {
                        assert(after[i] == before[i + 1]);
                        assert(before[i + 1] != before[0]);
                        assert(old(self).vec@[before[i + 1] as int] == Slot::<T>::Free(
                            next_free(before, i + 1),
                        ));
                        assert(next_free(after, i) == next_free(before, i + 1));
                    }
                    assert forall|k: int|
                        0 <= k < self.vec@.len() && (
                        #[trigger] self.vec@[k]) is Free implies after.contains(k as u32) by {
                        assert(old(self).vec@[k] is Free);
                        let j = choose|j: int| 0 <= j < before.len() && before[j] == k as u32;
                        assert(j > 0);
                        assert(after[j - 1] == k as u32);
                    }
                    assert forall|i: int, j: int|
                        0 <= i < after.len() && 0 <= j < after.len() && i != j implies after[i]
                        != after[j] by {
                        assert(before[i + 1] != before[j + 1]);
                    }
                }
                index
            },
            None => {
                let index: usize = self.vec.len();
                self.vec.push(Slot::Used(value));
                proof {
                    assert(self@ =~= old(self)@.push(Some(value)));
                    assert forall|k: int|
                        0 <= k < self.vec@.len() && (
                        #[trigger] self.vec@[k]) is Free implies self.chain@.contains(k as u32) by {
                        assert(old(self).vec@[k] is Free);
                    }
                }
                index as u32
            },
        }
    }

    /// Closes the value that `index` names: the index is free and is the
    /// first to be used again. Every other value keeps its index.
    pub fn close(&mut self, index: u32)
        requires
            old(self).wf(),
            index < old(self)@.len(),
            old(self)@[index as int] is Some,
        ensures
            final(self).wf(),
            final(self)@ == old(self)@.update(index as int, None),
            final(self).free_list() == seq![index] + old(self).free_list(),
    {
        let ghost before = self.chain@;
        self.vec[index as usize] = Slot::Free(self.free);
        self.free = Some(index);
        self.chain = Ghost(seq![index] + before);
        proof {
            let after = self.chain@;
            assert(self@ =~= old(self)@.update(index as int, None));
            assert(!before.contains(index)) by {
                if before.contains(index) {
                    let j = choose|j: int| 0 <= j < before.len() && before[j] == index;
                    assert(old(self).vec@[before[j] as int] is Free);
                }
            }
            assert forall|i: int| 0 <= i < after.len() implies (#[trigger] after[i])
                < self.vec@.len() && self.vec@[after[i] as int] == Slot::<T>::Free(
                next_free(after, i),
            ) by {
                if i > 0 {
                    assert(after[i] == before[i - 1]);
                    assert(old(self).vec@[before[i - 1] as int] == Slot::<T>::Free(
                        next_free(before, i - 1),
                    ));
                    assert(next_free(after, i) == next_free(before, i - 1));
                }
            }
            assert forall|k: int|
                0 <= k < self.vec@.len() && (
                #[trigger] self.vec@[k]) is Free implies after.contains(k as u32) by {
                if k == index as int {
                    assert(after[0] == index);
                } else {
                    assert(old(self).vec@[k] is Free);
                    let j = choose|j: int| 0 <= j < before.len() && before[j] == k as u32;
                    assert(after[j + 1] == k as u32);
                }
            }
            assert forall|i: int, j: int|
                0 <= i < after.len() && 0 <= j < after.len() && i != j implies after[i]
                != after[j] by {
                if i > 0 && j > 0 {
                    assert(before[i - 1] != before[j - 1]);
                } else if i > 0 {
                    assert(before.contains(before[i - 1]));
                } else {
                    assert(before.contains(before[j - 1]));
                }
            }
        }
    }
}

/// What a stream of the flat interface's host does.
#[derive(Clone, Copy, PartialEq, Eq, Structural, Debug)]
pub enum StreamKind {
    /// Reads where the descriptor stands.
    Read,
    /// Writes where the descriptor stands.
    Write,
    /// Reads at its own offset.
    ReadAt(Filesize),
    /// Writes at its own offset.
    WriteAt(Filesize),
    /// Writes at the end.
    Append,
}

/// A stream over a descriptor of the flat interface.
#[derive(Clone, Copy, PartialEq, Eq, Structural, Debug)]
pub struct Stream {
    pub fd: Fd,
    pub kind: StreamKind,
}

impl Stream {
    /// A stream that reads where the descriptor stands.
    pub fn read(fd: Fd) -> (r: Stream)
        ensures
            r == (Stream { fd, kind: StreamKind::Read }),
    {
        Stream { fd, kind: StreamKind::Read }
    }

    /// A stream that reads from `offset` on.
    pub fn read_at(fd: Fd, offset: Filesize) -> (r: Stream)
        ensures
            r == (Stream { fd, kind: StreamKind::ReadAt(offset) }),
    {
        Stream { fd, kind: StreamKind::ReadAt(offset) }
    }

    /// A stream that writes where the descriptor stands.
    pub fn write(fd: Fd) -> (r: Stream)
        ensures
            r == (Stream { fd, kind: StreamKind::Write }),
    {
        Stream { fd, kind: StreamKind::Write }
    }

    /// A stream that writes from `offset` on.
    pub fn write_at(fd: Fd, offset: Filesize) -> (r: Stream)
        ensures
            r == (Stream { fd, kind: StreamKind::WriteAt(offset) }),
    {
        Stream { fd, kind: StreamKind::WriteAt(offset) }
    }

    /// A stream that writes at the end.
    pub fn append(fd: Fd) -> (r: Stream)
        ensures
            r == (Stream { fd, kind: StreamKind::Append }),
    {
        Stream { fd, kind: StreamKind::Append }
    }

    /// The stream after `len` bytes went through it: a stream with an offset
    /// of its own moves on by that many bytes.
    pub open spec fn spec_moved(self, len: u64) -> Stream {
        match self.kind {
            StreamKind::ReadAt(offset) => Stream {
                kind: StreamKind::ReadAt(wrap_add(offset, len)),
                ..self
            },
            StreamKind::WriteAt(offset) => Stream {
                kind: StreamKind::WriteAt(wrap_add(offset, len)),
                ..self
            },
            _ => self,
        }
    }

    /// Moves the stream on by the bytes that went through it.
    pub fn moved(self, len: u64) -> (r: Stream)
        ensures
            r == self.spec_moved(len),
    {
        match self.kind {
            StreamKind::ReadAt(offset) => Stream {
                fd: self.fd,
                kind: StreamKind::ReadAt(offset.wrapping_add(len)),
            },
            StreamKind::WriteAt(offset) => Stream {
                fd: self.fd,
                kind: StreamKind::WriteAt(offset.wrapping_add(len)),
            },
            _ => self,
        }
    }
}

/// `a + b`, with 2^64 taken away where that does not fit.
pub open spec fn wrap_add(a: u64, b: u64) -> u64 {
    if a + b > u64::MAX {
        (a + b - 0x1_0000_0000_0000_0000) as u64
    } else {
        (a + b) as u64
    }
}

} // verus!
