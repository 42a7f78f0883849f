//! The descriptor table: a bounded array of slots in which the closed slots
//! form a free list that runs through the slots themselves.

use vstd::prelude::*;
use crate::arena::MAX_DESCRIPTORS;
use crate::capability::{
    Source, TcpSocket,
};
use crate::descriptor::{
    Descriptor, File, Released, StreamType, Streams, nothing_released, spec_nothing_released,
};
use crate::flat::{
    ERRNO_BADF, ERRNO_INVAL, ERRNO_NOMEM, ERRNO_NOTDIR, ERRNO_SPIPE, Errno, Fd,
};
use crate::registry::next_free;

verus! {

/// The table. Slot `fd` holds what the guest's descriptor `fd` refers to.
pub struct DescriptorTable {
    slots: Vec<Descriptor>,
    closed: Option<Fd>,
    free: Ghost<Seq<Fd>>,
}

/// The link that the `i`-th slot of a free list holds: the slot behind it, or
/// nothing at the end.
pub open spec fn link_at(free: Seq<Fd>, i: int) -> Option<Fd> {
    if i + 1 < free.len() {
        Some(free[i + 1])
    } else {
        None
    }
}

/// The head of a free list.
pub open spec fn head_of(free: Seq<Fd>) -> Option<Fd> {
    if free.len() > 0 {
        Some(free[0])
    } else {
        None
    }
}

/// Whether `free` is the free list of `slots`: it starts at `head`, each of
/// its slots is closed and links to the next, no slot occurs twice, and every
/// closed slot but `hole` is on it. The slot `hole` itself is not.
pub open spec fn chain_wf(
    slots: Seq<Descriptor>,
    head: Option<Fd>,
    free: Seq<Fd>,
    hole: int,
) -> bool {
    &&& head == head_of(free)
    &&& forall|i: int|
        0 <= i < free.len() ==> (#[trigger] free[i]) < slots.len() && free[i] != hole
            && slots[free[i] as int] == Descriptor::Closed(link_at(free, i))
    &&& free.no_duplicates()
    &&& forall|fd: int|
        0 <= fd < slots.len() && fd != hole && (#[trigger] slots[fd]) is Closed ==> free.contains(
            fd as Fd,
        )
}

/// Whether `after` keeps what `before` holds in every slot but `a` and `b`: an open
/// slot keeps its contents, a closed slot stays closed.
pub open spec fn same_except(
    before: Seq<Descriptor>,
    after: Seq<Descriptor>,
    a: int,
    b: int,
) -> bool {
    &&& before.len() <= after.len()
    &&& forall|i: int|
        #![trigger before[i]]
        #![trigger after[i]]
        0 <= i < before.len() && i != a && i != b ==> if before[i].is_open() {
            after[i] == before[i]
        } else {
            !after[i].is_open()
        }
}

/// The free list after the table has grown from `from` to `to` slots: the new
/// slots, last one first, in front of what was free before.
pub open spec fn grown_free(free: Seq<Fd>, from: int, to: int) -> Seq<Fd> {
    if to <= from {
        free
    } else {
        Seq::new((to - from) as nat, |i: int| (to - 1 - i) as Fd) + free
    }
}

/// The list without the value `fd`.
pub open spec fn without(free: Seq<Fd>, fd: Fd) -> Seq<Fd> {
    free.remove_value(fd)
}

/// In a list without duplicates, taking out the value at position `k` is
/// taking out that value.
pub proof fn lemma_without(free: Seq<Fd>, k: int)
    requires
        free.no_duplicates(),
        0 <= k < free.len(),
    ensures
        without(free, free[k]) == free.remove(k),
        !free.remove(k).contains(free[k]),
        free.remove(k).no_duplicates(),
        forall|x: Fd| x != free[k] && free.contains(x) ==> free.remove(k).contains(x),
{
    free.index_of_first_ensures(free[k]);
    let r = free.remove(k);
    assert forall|x: Fd| x != free[k] && free.contains(x) implies r.contains(x) by {
        let j = choose|j: int| 0 <= j < free.len() && free[j] == x;
        if j < k {
            assert(r[j] == x);
        } else {
            assert(r[j - 1] == x);
        }
    }
}

/// A value that is not in a list is not taken out of it.
pub proof fn lemma_without_absent(free: Seq<Fd>, fd: Fd)
    requires
        !free.contains(fd),
    ensures
        without(free, fd) == free,
{
    free.index_of_first_ensures(fd);
}

/// Growing by one more slot puts that slot in front of the free list.
pub proof fn lemma_grown_free_step(free: Seq<Fd>, from: int, to: int)
    requires
        0 <= from <= to,
    ensures
        grown_free(free, from, to + 1) == seq![to as Fd] + grown_free(free, from, to),
{
    assert(grown_free(free, from, to + 1) =~= seq![to as Fd] + grown_free(free, from, to));
}

/// Keeping every slot is transitive, and slots that were added closed stay
/// closed.
pub proof fn lemma_same_except_trans(a: Seq<Descriptor>, b: Seq<Descriptor>, c: Seq<Descriptor>)
    requires
        a.len() <= b.len(),
        same_except(a, b, -1, -1),
        same_except(b, c, -1, -1),
    ensures
        same_except(a, c, -1, -1),
        forall|i: int| a.len() <= i < b.len() && !(#[trigger] b[i]).is_open() ==> !c[i].is_open(),
{
    assert forall|i: int| 0 <= i < a.len() implies (if (#[trigger] a[i]).is_open() {
        c[i] == a[i]
    } else {
        !c[i].is_open()
    }) by {
        let kept = b[i];
        assert(kept.is_open() == a[i].is_open());
    }
}

impl View for DescriptorTable {
    type V = Seq<Descriptor>;

    closed spec fn view(&self) -> Seq<Descriptor> {
        self.slots@
    }
}

impl DescriptorTable {
    /// The closed slots in the order in which they will be used again.
    pub closed spec fn free_list(&self) -> Seq<Fd> {
        self.free@
    }

    /// The slot that will be used next, if any slot is closed.
    pub closed spec fn head(&self) -> Option<Fd> {
        self.closed
    }

    /// The table holds at most `MAX_DESCRIPTORS` slots, and its free list is
    /// exactly its closed slots.
    pub open spec fn wf(&self) -> bool {
        &&& self@.len() <= MAX_DESCRIPTORS
        &&& chain_wf(self@, self.head(), self.free_list(), -1)
    }

    /// Whether `fd` names a slot that is in use.
    pub open spec fn is_open(&self, fd: Fd) -> bool {
        fd < self@.len() && self@[fd as int].is_open()
    }

    /// An empty table.
    pub fn new() -> (r: Self)
        ensures
            r.wf(),
            r@.len() == 0,
            r.free_list().len() == 0,
    {
        DescriptorTable { slots: Vec::new(), closed: None, free: Ghost(Seq::empty()) }
    }

    /// The number of slots.
    pub fn len(&self) -> (r: usize)
        ensures
            r == self@.len(),
    {
        self.slots.len()
    }

    /// The slot that will be used next, if any slot is closed.
    pub fn next_free(&self) -> (r: Option<Fd>)
        requires
            self.wf(),
        ensures
            r == head_of(self.free_list()),
    {
        self.closed
    }

    /// What slot `fd` holds, or that the table has no such slot.
    pub open spec fn spec_get(&self, fd: Fd) -> Result<Descriptor, Errno> {
        if fd < self@.len() {
            Ok(self@[fd as int])
        } else {
            Err(ERRNO_BADF)
        }
    }

    /// Looks up slot `fd`.
    pub fn get(&self, fd: Fd) -> (r: Result<Descriptor, Errno>)
        ensures
            r == self.spec_get(fd),
    {
        if (fd as usize) < self.slots.len() {
            Ok(self.slots[fd as usize])
        } else {
            Err(ERRNO_BADF)
        }
    }

    /// Appends a slot and returns its number, or reports that the table is
    /// full. An open descriptor is stored as it is. A closed one becomes a
    /// free slot at the head of the free list, whatever link it came with.
    pub fn push_desc(&mut self, desc: Descriptor) -> (r: Result<Fd, Errno>)
        requires
            old(self).wf(),
        ensures
            final(self).wf(),
            old(self)@.len() >= MAX_DESCRIPTORS ==> r == Err::<Fd, Errno>(ERRNO_NOMEM)
                && final(self)@ == old(self)@ && final(self).free_list() == old(self).free_list(),
            old(self)@.len() < MAX_DESCRIPTORS ==> r == Ok::<Fd, Errno>(old(self)@.len() as Fd)
                && final(self)@.len() == old(self)@.len() + 1 && same_except(
                old(self)@,
                final(self)@,
                -1,
                -1,
            ) && if desc.is_open() {
                final(self)@ == old(self)@.push(desc) && final(self).free_list() == old(
                    self,
                ).free_list()
            } else {
                !final(self)@.last().is_open() && final(self).free_list() == seq![
                    old(self)@.len() as Fd,
                ] + old(self).free_list()
            },
    {
        let n: usize = self.slots.len();
        if n >= MAX_DESCRIPTORS {
            return Err(ERRNO_NOMEM);
        }
        let fd: Fd = n as Fd;
        match desc {
            Descriptor::Closed(_) => {
                let ghost before = self.free@;
                self.slots.push(Descriptor::Closed(self.closed));
                self.closed = Some(fd);
                self.free = Ghost(seq![fd] + before);
                proof {
                    let after = self.free@;
                    assert forall|i: int| 0 <= i < after.len() implies (#[trigger] after[i])
                        < self.slots@.len() && self.slots@[after[i] as int] == Descriptor::Closed(
                        link_at(after, i),
                    ) by {
                        if i > 0 {
                            assert(after[i] == before[i - 1]);
                            assert(link_at(after, i) == link_at(before, i - 1));
                        }
                    }
                    assert forall|x: int|
                        0 <= x < self.slots@.len() && (
                        #[trigger] self.slots@[x]) is Closed implies after.contains(x as Fd) by {
                        if x < n {
                            assert(old(self)@[x] is Closed);
                            let j = choose|j: int| 0 <= j < before.len() && before[j] == x as Fd;
                            assert(after[j + 1] == x as Fd);
                        } else {
                            assert(after[0] == x as Fd);
                        }
                    }
                }
            },
            _ => {
                self.slots.push(desc);
                proof {
                    let free = self.free@;
                    assert forall|x: int|
                        0 <= x < self.slots@.len() && (
                        #[trigger] self.slots@[x]) is Closed implies free.contains(x as Fd) by {
                        assert(old(self)@[x] is Closed);
                    }
                }
            },
        }
        Ok(fd)
    }

    /// Takes the closed slot `idx` off the free list. The slot itself stays
    /// closed and is the one closed slot that the list then lacks.
    fn unlink(&mut self, idx: Fd)
        requires
            old(self).wf(),
            idx < old(self)@.len(),
            old(self)@[idx as int] is Closed,
        ensures
            final(self)@.len() == old(self)@.len(),
            chain_wf(final(self)@, final(self).head(), final(self).free_list(), idx as int),
            final(self).free_list() == without(old(self).free_list(), idx),
            same_except(old(self)@, final(self)@, -1, -1),
            final(self)@[idx as int] is Closed,
    {
        let ghost free = self.free@;
        let ghost k0 = choose|j: int| 0 <= j < free.len() && free[j] == idx;
        proof {
            assert(free.contains(idx));
        }
        let mut prev: Option<Fd> = None;
        let mut cur: Fd = match self.closed {
            Some(c) => c,
            None => 0,
        };
        let ghost mut k: int = 0;
        while cur != idx
            invariant
                self.slots@ == old(self).slots@,
                self.closed == old(self).closed,
                self.free@ == free,
                old(self).wf(),
                free == old(self).free_list(),
                0 <= k <= k0 < free.len(),
                free[k0] == idx,
                cur == free[k],
                prev == (if k > 0 {
                    Some(free[k - 1])
                } else {
                    None::<Fd>
                }),
            decreases free.len() - k,
        {
            assert(k < k0);
            assert(self.slots@[free[k] as int] == Descriptor::Closed(link_at(free, k)));
            let next: Option<Fd> = match self.slots[cur as usize] {
                Descriptor::Closed(n) => n,
                _ => None,
            };
            prev = Some(cur);
            cur = match next {
                Some(n) => n,
                None => 0,
            };
            proof {
                k = k + 1;
            }
        }
        assert(k == k0);
        assert(self.slots@[free[k] as int] == Descriptor::Closed(link_at(free, k)));
        let next: Option<Fd> = match self.slots[idx as usize] {
            Descriptor::Closed(n) => n,
            _ => None,
        };
        match prev {
            None => {
                self.closed = next;
            },
            Some(p) => {
                assert(self.slots@[free[k - 1] as int] == Descriptor::Closed(link_at(free, k - 1)));
                self.slots[p as usize] = Descriptor::Closed(next);
            },
        }
        self.free = Ghost(free.remove(k));
        proof {
            lemma_without(free, k);
            let after = self.free@;
            let slots = self.slots@;
            assert forall|i: int| 0 <= i < after.len() implies (#[trigger] after[i]) < slots.len()
                && after[i] != idx as int && slots[after[i] as int] == Descriptor::Closed(
                link_at(after, i),
            ) by {
                if i < k {
                    assert(after[i] == free[i]);
                    assert(old(self)@[free[i] as int] == Descriptor::Closed(link_at(free, i)));
                    if i == k - 1 {
                        assert(link_at(after, i) == link_at(free, k));
                    } else {
                        assert(after[i + 1] == free[i + 1]);
                        assert(free[i] != free[k - 1]);
                    }
                } else {
                    assert(after[i] == free[i + 1]);
                    assert(old(self)@[free[i + 1] as int] == Descriptor::Closed(
                        link_at(free, i + 1),
                    ));
                    assert(link_at(after, i) == link_at(free, i + 1));
                    if k > 0 {
                        assert(free[i + 1] != free[k - 1]);
                    }
                }
            }
            assert forall|x: int|
                0 <= x < slots.len() && x != idx as int && (
                #[trigger] slots[x]) is Closed implies after.contains(x as Fd) by {
                if k > 0 && x == free[k - 1] as int {
                    assert(free.contains(x as Fd));
                } else {
                    assert(old(self)@[x] is Closed);
                }
            }
            assert forall|i: int| 0 <= i < old(self)@.len() implies (if (
            #[trigger] old(self)@[i]).is_open() {
                slots[i] == old(self)@[i]
            } else {
                !slots[i].is_open()
            }) by {
                if k > 0 && i == free[k - 1] as int {
                    assert(old(self)@[free[k - 1] as int] == Descriptor::Closed(
                        link_at(free, k - 1),
                    ));
                }
            }
        }
    }

    /// Puts the slot `idx`, which the free list lacks, at the head of the free
    /// list.
    fn push_free(&mut self, idx: Fd)
        requires
            old(self)@.len() <= MAX_DESCRIPTORS,
            idx < old(self)@.len(),
            chain_wf(old(self)@, old(self).head(), old(self).free_list(), idx as int),
        ensures
            final(self).wf(),
            final(self)@.len() == old(self)@.len(),
            final(self).free_list() == seq![idx] + old(self).free_list(),
            same_except(old(self)@, final(self)@, idx as int, -1),
            !final(self)@[idx as int].is_open(),
    {
        let ghost before = self.free@;
        self.slots[idx as usize] = Descriptor::Closed(self.closed);
        self.closed = Some(idx);
        self.free = Ghost(seq![idx] + before);
        proof {
            let after = self.free@;
            let slots = self.slots@;
            assert forall|i: int| 0 <= i < after.len() implies (#[trigger] after[i]) < slots.len()
                && after[i] != -1 && slots[after[i] as int] == Descriptor::Closed(
                link_at(after, i),
            ) by {
                if i > 0 {
                    assert(after[i] == before[i - 1]);
                    assert(link_at(after, i) == link_at(before, i - 1));
                }
            }
            assert forall|x: int|
                0 <= x < slots.len() && (#[trigger] slots[x]) is Closed implies after.contains(
                x as Fd,
            ) by {
                if x == idx as int {
                    assert(after[0] == idx);
                } else {
                    assert(old(self)@[x] is Closed);
                    let j = choose|j: int| 0 <= j < before.len() && before[j] == x as Fd;
                    assert(after[j + 1] == x as Fd);
                }
            }
            assert forall|i: int, j: int|
                0 <= i < after.len() && 0 <= j < after.len() && i != j implies after[i]
                != after[j] by {
                if i > 0 && j > 0 {
                    assert(before[i - 1] != before[j - 1]);
                } else if i > 0 {
                    assert(before[i - 1] != idx);
                } else {
                    assert(before[j - 1] != idx);
                }
            }
        }
    }

    /// Stores an open descriptor in the slot `idx`, which the free list lacks
    /// or which is open.
    fn fill(&mut self, idx: Fd, desc: Descriptor)
        requires
            old(self)@.len() <= MAX_DESCRIPTORS,
            idx < old(self)@.len(),
            chain_wf(old(self)@, old(self).head(), old(self).free_list(), idx as int),
            desc.is_open(),
        ensures
            final(self).wf(),
            final(self)@ == old(self)@.update(idx as int, desc),
            final(self).free_list() == old(self).free_list(),
    {
        self.slots[idx as usize] = desc;
        proof {
            let free = self.free@;
            let slots = self.slots@;
            assert forall|x: int|
                0 <= x < slots.len() && (#[trigger] slots[x]) is Closed implies free.contains(
                x as Fd,
            ) by {
                assert(old(self)@[x] is Closed);
            }
        }
    }

    /// With an open slot, the free list that is right for the table is right
    /// for it with that slot left out.
    proof fn lemma_open_is_hole(&self, idx: Fd)
        requires
            self.wf(),
            self.is_open(idx),
        ensures
            chain_wf(self@, self.head(), self.free_list(), idx as int),
            !self.free_list().contains(idx),
    {
    }

    /// Replaces what the open slot `fd` holds by another open descriptor.
    pub fn replace(&mut self, fd: Fd, desc: Descriptor)
        requires
            old(self).wf(),
            old(self).is_open(fd),
            desc.is_open(),
        ensures
            final(self).wf(),
            final(self)@ == old(self)@.update(fd as int, desc),
            final(self).free_list() == old(self).free_list(),
    {
        proof {
            self.lemma_open_is_hole(fd);
        }
        self.fill(fd, desc);
    }

    /// Stores an open descriptor in the slot `fd`, whatever the slot held, and
    /// returns the handles that the slot gives up.
    pub fn set(&mut self, fd: Fd, desc: Descriptor) -> (r: Released)
        requires
            old(self).wf(),
            fd < old(self)@.len(),
            desc.is_open(),
        ensures
            final(self).wf(),
            final(self)@.len() == old(self)@.len(),
            final(self)@[fd as int] == desc,
            same_except(old(self)@, final(self)@, fd as int, -1),
            final(self).free_list() == without(old(self).free_list(), fd),
            r == old(self)@[fd as int].spec_release(),
    {
        let before: Descriptor = self.slots[fd as usize];
        let released: Released = before.release();
        match before {
            Descriptor::Closed(_) => {
                self.unlink(fd);
            },
            _ => {
                proof {
                    self.lemma_open_is_hole(fd);
                    lemma_without_absent(self.free_list(), fd);
                }
            },
        }
        let ghost mid = self@;
        self.fill(fd, desc);
        proof {
            assert forall|i: int| 0 <= i < old(self)@.len() && i != fd as int implies (if (
            #[trigger] old(self)@[i]).is_open() {
                self@[i] == old(self)@[i]
            } else {
                !self@[i].is_open()
            }) by {
                assert(mid[i].is_open() == old(self)@[i].is_open());
            }
        }
        released
    }

    /// Closes the slot `fd`: the slot becomes the head of the free list, and
    /// the handles it held are returned. A slot that was closed before is
    /// moved to the head of the free list. Without such a slot nothing
    /// changes.
    pub fn close(&mut self, fd: Fd) -> (r: Result<Released, Errno>)
        requires
            old(self).wf(),
        ensures
            final(self).wf(),
            final(self)@.len() == old(self)@.len(),
            fd >= old(self)@.len() ==> r == Err::<Released, Errno>(ERRNO_BADF) && final(self)@
                == old(self)@ && final(self).free_list() == old(self).free_list(),
            fd < old(self)@.len() ==> r == Ok::<Released, Errno>(
                old(self)@[fd as int].spec_release(),
            ) && !final(self).is_open(fd) && same_except(old(self)@, final(self)@, fd as int, -1)
                && final(self).free_list() == seq![fd] + without(old(self).free_list(), fd),
    {
        if fd as usize >= self.slots.len() {
            return Err(ERRNO_BADF);
        }
        let desc: Descriptor = self.slots[fd as usize];
        let released: Released = desc.release();
        match desc {
            Descriptor::Closed(_) => {
                self.unlink(fd);
            },
            _ => {
                proof {
                    self.lemma_open_is_hole(fd);
                    lemma_without_absent(self.free_list(), fd);
                }
            },
        }
        let ghost mid = self@;
        self.push_free(fd);
        proof {
            assert forall|i: int| 0 <= i < old(self)@.len() && i != fd as int implies (if (
            #[trigger] old(self)@[i]).is_open() {
                self@[i] == old(self)@[i]
            } else {
                !self@[i].is_open()
            }) by {
                assert(mid[i].is_open() == old(self)@[i].is_open());
            }
        }
        Ok(released)
    }

    /// Gives streams a slot: the head of the free list where a slot is free, a
    /// new slot at the end of the table otherwise. The slot was not in use
    /// before. Where the table is full and nothing is free, nothing changes.
    pub fn install(&mut self, streams: Streams) -> (r: Result<Fd, Errno>)
        requires
            old(self).wf(),
        ensures
            final(self).wf(),
            match r {
                Ok(fd) => {
                    &&& !old(self).is_open(fd)
                    &&& fd == (match head_of(old(self).free_list()) {
                        Some(head) => head,
                        None => old(self)@.len() as Fd,
                    })
                    &&& final(self)@ == (if fd < old(self)@.len() {
                        old(self)@.update(fd as int, Descriptor::Streams(streams))
                    } else {
                        old(self)@.push(Descriptor::Streams(streams))
                    })
                    &&& final(self).free_list() == without(old(self).free_list(), fd)
                },
                Err(errno) => {
                    &&& errno == ERRNO_NOMEM
                    &&& final(self)@ == old(self)@
                    &&& final(self).free_list() == old(self).free_list()
                },
            },
            r is Err <==> old(self).free_list().len() == 0 && old(self)@.len() >= MAX_DESCRIPTORS,
    {
        let desc: Descriptor = Descriptor::Streams(streams);
        match self.closed {
            None => {
                proof {
                    lemma_without_absent(self.free_list(), self@.len() as Fd);
                }
                self.push_desc(desc)
            },
            Some(recycle_fd) => {
                let ghost free = self.free_list();
                assert(free[0] == recycle_fd);
                proof {
                    lemma_without(free, 0);
                }
                self.unlink(recycle_fd);
                self.fill(recycle_fd, desc);
                proof {
                    assert forall|i: int| 0 <= i < old(self)@.len() implies (#[trigger] self@[i])
                        == old(self)@.update(recycle_fd as int, desc)[i] by {
                        if i != recycle_fd as int {
                            if old(self)@[i].is_open() {
                            } else {
                                // a closed slot keeps its link unless it pointed at the slot taken
                                assert(free.contains(i as Fd));
                            }
                        }
                    }
                }
                Ok(recycle_fd)
            },
        }
    }

    /// The number of slots after the table has grown to hold slot `to`, as far
    /// as its capacity allows.
    pub open spec fn grown_len(len: int, to: Fd) -> int {
        if to < len {
            len
        } else if to < MAX_DESCRIPTORS {
            to + 1
        } else {
            MAX_DESCRIPTORS as int
        }
    }

    /// Whether `slots` and `free` are this table grown to `len` slots: what was
    /// there is kept, and the new slots are closed and head the free list,
    /// the last one first.
    pub open spec fn grown_to(&self, slots: Seq<Descriptor>, free: Seq<Fd>, len: int) -> bool {
        &&& slots.len() == len
        &&& same_except(self@, slots, -1, -1)
        &&& forall|i: int| self@.len() <= i < len ==> !(#[trigger] slots[i]).is_open()
        &&& free == grown_free(self.free_list(), self@.len() as int, len)
    }

    /// Grows the table with closed slots until it holds slot `to`, and says
    /// whether it does. The table grows as far as its capacity allows even
    /// where that is not far enough.
    fn grow(&mut self, to: Fd) -> (r: bool)
        requires
            old(self).wf(),
        ensures
            final(self).wf(),
            final(self)@.len() == Self::grown_len(old(self)@.len() as int, to),
            r == (to < MAX_DESCRIPTORS),
            old(self).grown_to(final(self)@, final(self).free_list(), final(self)@.len() as int),
    {
        let ghost n0 = self@.len() as int;
        let ghost free0 = self.free_list();
        while self.slots.len() <= to as usize
            invariant
                self.wf(),
                n0 == old(self)@.len(),
                free0 == old(self).free_list(),
                n0 <= self@.len(),
                self@.len() == n0 || self@.len() <= to + 1,
                old(self).grown_to(self@, self.free_list(), self@.len() as int),
            decreases MAX_DESCRIPTORS + 1 - self.slots.len(),
        {
            let ghost before = self@;
            let ghost n = self@.len() as int;
            match self.push_desc(Descriptor::Closed(None)) {
                Err(errno) => {
                    return false;
                },
                Ok(_) => {},
            }
            proof {
                lemma_grown_free_step(free0, n0, n);
                lemma_same_except_trans(old(self)@, before, self@);
            }
        }
        true
    }

    /// Moves the descriptor in slot `from` into slot `to` and closes `from`.
    ///
    /// The table first grows, with closed slots, until it holds slot `to`; it
    /// stays grown whatever follows. Without room for slot `to` the call fails
    /// for lack of memory. Without an open slot `from` it fails with a bad
    /// descriptor. With `from` equal to `to` nothing moves. Otherwise slot `to`
    /// gives up what it held, which is returned, and takes over the
    /// descriptor, while `from` becomes the head of the free list.
    pub fn renumber(&mut self, from: Fd, to: Fd) -> (r: Result<Released, Errno>)
        requires
            old(self).wf(),
        ensures
            final(self).wf(),
            final(self)@.len() == Self::grown_len(old(self)@.len() as int, to),
            to >= MAX_DESCRIPTORS ==> r == Err::<Released, Errno>(ERRNO_NOMEM),
            to < MAX_DESCRIPTORS && !old(self).is_open(from) ==> r == Err::<Released, Errno>(
                ERRNO_BADF,
            ),
            r is Err ==> old(self).grown_to(
                final(self)@,
                final(self).free_list(),
                final(self)@.len() as int,
            ),
            to < MAX_DESCRIPTORS && old(self).is_open(from) && from == to ==> r == Ok::<
                Released,
                Errno,
            >(spec_nothing_released()) && final(self)@ == old(self)@ && final(self).free_list()
                == old(self).free_list(),
            to < MAX_DESCRIPTORS && old(self).is_open(from) && from != to ==> {
                &&& r == Ok::<Released, Errno>(
                    if to < old(self)@.len() {
                        old(self)@[to as int].spec_release()
                    } else {
                        spec_nothing_released()
                    },
                )
                &&& final(self)@[to as int] == old(self)@[from as int]
                &&& !final(self).is_open(from)
                &&& same_except(old(self)@, final(self)@, from as int, to as int)
                &&& forall|i: int|
                    old(self)@.len() <= i < final(self)@.len() && i != to ==> !(
                    #[trigger] final(self)@[i]).is_open()
                &&& final(self).free_list() == seq![from] + without(
                    grown_free(
                        old(self).free_list(),
                        old(self)@.len() as int,
                        final(self)@.len() as int,
                    ),
                    to,
                )
            },
    {
        let ghost n0 = self@.len() as int;
        if !self.grow(to) {
            return Err(ERRNO_NOMEM);
        }
        let ghost grown = self@;
        let ghost free1 = self.free_list();
        if from as usize >= self.slots.len() {
            return Err(ERRNO_BADF);
        }
        let desc: Descriptor = self.slots[from as usize];
        match desc {
            Descriptor::Closed(_) => {
                proof {
                    if from < n0 {
                        assert(!old(self)@[from as int].is_open());
                    }
                }
                return Err(ERRNO_BADF);
            },
            _ => {},
        }
        proof {
            // an open slot of the grown table was open before, with the same contents
            if from >= n0 {
                assert(!grown[from as int].is_open());
            }
            assert(old(self)@[from as int] == desc);
        }
        if from == to {
            proof {
                assert(self@ =~= old(self)@);
            }
            return Ok(nothing_released());
        }
        let target: Descriptor = self.slots[to as usize];
        let released: Released = target.release();
        match target {
            Descriptor::Closed(_) => {
                self.unlink(to);
            },
            _ => {
                proof {
                    self.lemma_open_is_hole(to);
                    lemma_without_absent(self.free_list(), to);
                    if to >= n0 {
                        assert(!grown[to as int].is_open());
                    }
                    assert(old(self)@[to as int] == target);
                }
            },
        }
        let ghost mid = self@;
        self.fill(to, desc);
        let ghost filled = self@;
        proof {
            assert(mid[from as int] == grown[from as int]);
            assert(self.is_open(from));
            self.lemma_open_is_hole(from);
        }
        self.push_free(from);
        proof {
            assert forall|i: int|
                0 <= i < n0 && i != from as int && i != to as int implies (if (
            #[trigger] old(self)@[i]).is_open() {
                self@[i] == old(self)@[i]
            } else {
                !self@[i].is_open()
            }) by {
                assert(grown[i].is_open() == old(self)@[i].is_open());
                assert(mid[i].is_open() == grown[i].is_open());
                assert(filled[i] == mid[i]);
            }
            assert forall|i: int| n0 <= i < self@.len() && i != to as int implies !(
            #[trigger] self@[i]).is_open() by {
                assert(!grown[i].is_open());
                assert(!mid[i].is_open());
                assert(filled[i] == mid[i]);
            }
            if to < n0 {
                if old(self)@[to as int].is_open() {
                    assert(grown[to as int] == old(self)@[to as int]);
                } else {
                    assert(!grown[to as int].is_open());
                }
            } else {
                assert(!grown[to as int].is_open());
            }
        }
        Ok(released)
    }

    /// The streams in slot `fd`. A slot that does not exist or is closed is a
    /// bad descriptor; any other slot without streams gives `error`.
    pub open spec fn spec_stream_with_error(&self, fd: Fd, error: Errno) -> Result<Streams, Errno> {
        match self.spec_get(fd) {
            Ok(Descriptor::Streams(streams)) => Ok(streams),
            Ok(Descriptor::Closed(_)) => Err(ERRNO_BADF),
            Ok(_) => Err(error),
            Err(errno) => Err(errno),
        }
    }

    /// The file in slot `fd`. A slot that does not exist or is closed is a bad
    /// descriptor; any other slot without a file gives `error`.
    pub open spec fn spec_file_with_error(&self, fd: Fd, error: Errno) -> Result<File, Errno> {
        match self.spec_get(fd) {
            Ok(Descriptor::Streams(streams)) => match streams.type_ {
                StreamType::File(file) => Ok(file),
                _ => Err(error),
            },
            Ok(Descriptor::Closed(_)) => Err(ERRNO_BADF),
            Ok(_) => Err(error),
            Err(errno) => Err(errno),
        }
    }

    /// The socket in slot `fd`. A slot that does not exist or is closed is a
    /// bad descriptor; any other slot without a socket is an invalid argument.
    pub open spec fn spec_socket(&self, fd: Fd) -> Result<TcpSocket, Errno> {
        match self.spec_get(fd) {
            Ok(Descriptor::Streams(streams)) => match streams.type_ {
                StreamType::Socket(socket) => Ok(socket),
                _ => Err(ERRNO_INVAL),
            },
            Ok(Descriptor::Closed(_)) => Err(ERRNO_BADF),
            Ok(_) => Err(ERRNO_INVAL),
            Err(errno) => Err(errno),
        }
    }

    /// How to come by the input stream of slot `fd`. Only streams can be
    /// read.
    pub open spec fn spec_read_stream(&self, fd: Fd) -> Result<Source, Errno> {
        match self.spec_get(fd) {
            Ok(Descriptor::Streams(streams)) => streams.spec_read_stream(),
            Ok(_) => Err(ERRNO_BADF),
            Err(errno) => Err(errno),
        }
    }

    /// How to come by the output stream of slot `fd`. Only streams have one.
    pub open spec fn spec_write_stream(&self, fd: Fd) -> Result<Source, Errno> {
        match self.spec_get(fd) {
            Ok(Descriptor::Streams(streams)) => streams.spec_write_stream(),
            Ok(_) => Err(ERRNO_BADF),
            Err(errno) => Err(errno),
        }
    }

    /// Looks up the streams in slot `fd`.
    pub fn get_stream_with_error(&self, fd: Fd, error: Errno) -> (r: Result<Streams, Errno>)
        ensures
            r == self.spec_stream_with_error(fd, error),
    {
        match self.get(fd) {
            Ok(Descriptor::Streams(streams)) => Ok(streams),
            Ok(Descriptor::Closed(_)) => Err(ERRNO_BADF),
            Ok(_) => Err(error),
            Err(errno) => Err(errno),
        }
    }

    /// Looks up the file in slot `fd`.
    pub fn get_file_with_error(&self, fd: Fd, error: Errno) -> (r: Result<File, Errno>)
        ensures
            r == self.spec_file_with_error(fd, error),
    {
        match self.get(fd) {
            Ok(Descriptor::Streams(streams)) => match streams.type_ {
                StreamType::File(file) => Ok(file),
                _ => Err(error),
            },
            Ok(Descriptor::Closed(_)) => Err(ERRNO_BADF),
            Ok(_) => Err(error),
            Err(errno) => Err(errno),
        }
    }

    /// Looks up the socket in slot `fd`.
    pub fn get_socket(&self, fd: Fd) -> (r: Result<TcpSocket, Errno>)
        ensures
            r == self.spec_socket(fd),
    {
        match self.get(fd) {
            Ok(Descriptor::Streams(streams)) => match streams.type_ {
                StreamType::Socket(socket) => Ok(socket),
                _ => Err(ERRNO_INVAL),
            },
            Ok(Descriptor::Closed(_)) => Err(ERRNO_BADF),
            Ok(_) => Err(ERRNO_INVAL),
            Err(errno) => Err(errno),
        }
    }

    /// Looks up the file in slot `fd` for an operation on a file. Anything
    /// else that is open is an invalid argument.
    pub fn get_file(&self, fd: Fd) -> (r: Result<File, Errno>)
        ensures
            r == self.spec_file_with_error(fd, ERRNO_INVAL),
    {
        self.get_file_with_error(fd, ERRNO_INVAL)
    }

    /// Looks up the file in slot `fd` for an operation on a directory.
    /// Anything else that is open is not a directory.
    pub fn get_dir(&self, fd: Fd) -> (r: Result<File, Errno>)
        ensures
            r == self.spec_file_with_error(fd, ERRNO_NOTDIR),
    {
        self.get_file_with_error(fd, ERRNO_NOTDIR)
    }

    /// Looks up the file in slot `fd` for an operation that needs a position.
    /// Anything else that is open cannot seek.
    pub fn get_seekable_file(&self, fd: Fd) -> (r: Result<File, Errno>)
        ensures
            r == self.spec_file_with_error(fd, ERRNO_SPIPE),
    {
        self.get_file_with_error(fd, ERRNO_SPIPE)
    }

    /// Looks up the streams in slot `fd` for a seek. Anything else that is
    /// open cannot seek.
    pub fn get_seekable_stream(&self, fd: Fd) -> (r: Result<Streams, Errno>)
        ensures
            r == self.spec_stream_with_error(fd, ERRNO_SPIPE),
    {
        self.get_stream_with_error(fd, ERRNO_SPIPE)
    }

    /// Says how to come by the input stream of slot `fd`.
    pub fn get_read_stream(&self, fd: Fd) -> (r: Result<Source, Errno>)
        ensures
            r == self.spec_read_stream(fd),
    {
        match self.get(fd) {
            Ok(Descriptor::Streams(streams)) => streams.get_read_stream(),
            Ok(_) => Err(ERRNO_BADF),
            Err(errno) => Err(errno),
        }
    }

    /// Says how to come by the output stream of slot `fd`.
    pub fn get_write_stream(&self, fd: Fd) -> (r: Result<Source, Errno>)
        ensures
            r == self.spec_write_stream(fd),
    {
        match self.get(fd) {
            Ok(Descriptor::Streams(streams)) => streams.get_write_stream(),
            Ok(_) => Err(ERRNO_BADF),
            Err(errno) => Err(errno),
        }
    }

    /// The table with `streams` in slot `fd`, where that slot holds streams. A
    /// slot without streams is left as it is.
    pub open spec fn spec_with_streams(&self, fd: Fd, streams: Streams) -> Seq<Descriptor> {
        if fd < self@.len() && self@[fd as int] is Streams {
            self@.update(fd as int, Descriptor::Streams(streams))
        } else {
            self@
        }
    }

    /// Replaces the streams in slot `fd`. A slot without streams is left as it
    /// is.
    pub fn set_streams(&mut self, fd: Fd, streams: Streams)
        requires
            old(self).wf(),
        ensures
            final(self).wf(),
            final(self)@ == old(self).spec_with_streams(fd, streams),
            final(self).free_list() == old(self).free_list(),
    {
        match self.get(fd) {
            Ok(Descriptor::Streams(_)) => {
                self.replace(fd, Descriptor::Streams(streams));
            },
            _ => {},
        }
    }
}

} // verus!
