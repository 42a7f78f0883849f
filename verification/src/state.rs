//! The process state: the one value that holds everything the adapter knows.
//! Every call of the flat interface works on it.

use vstd::prelude::*;
use crate::arena::{
    BumpArena, MAX_DESCRIPTORS, check_power_of_two, is_power_of_two, spec_align_to,
    spec_bump_arena_size,
};
use crate::capability::{
    HostCall, InputStream, MonotonicClock, OutputStream, ResultBuffer, Source, TcpSocket,
    WallClock,
};
use crate::descriptor::{
    Descriptor, File, Released, StreamType, Streams,
};
use crate::flat::{
    DIRCOOKIE_START, ERRNO_INVAL, ERRNO_NOMEM, ERRNO_NOTDIR, ERRNO_SPIPE, Errno, Fd,
};
use crate::import_alloc::{
    AllocMode, ImportAlloc, spec_can_alloc,
};
use crate::readdir::DirentCache;
use crate::strings::{
    Preopen, PreopenList, StrTuple, StrTupleList, WasmStr, lines_of, packed_len, strings_of,
};
use crate::table::{
    DescriptorTable, same_except, without,
};

pub mod fd_calls;
pub mod misc_calls;
pub mod path_calls;

verus! {

/// The value of the two canary words that bracket the state.
pub const MAGIC: u32 = 0x2168_6775;

/// How far the memory for the process state has come into being.
#[derive(Clone, Copy, PartialEq, Eq, Structural, Debug)]
pub enum AllocationState {
    StackUnallocated,
    StackAllocating,
    StackAllocated,
    StateAllocating,
    StateAllocated,
}

/// Whether the process state can be used: its memory exists, or can be made
/// to exist. While it cannot, a few calls answer without it.
pub open spec fn spec_state_available(allocation: AllocationState) -> bool {
    allocation == AllocationState::StackAllocated || allocation == AllocationState::StateAllocated
}

/// Decides whether the process state can be used.
pub fn state_available(allocation: AllocationState) -> (r: bool)
    ensures
        r == spec_state_available(allocation),
{
    match allocation {
        AllocationState::StackAllocated => true,
        AllocationState::StateAllocated => true,
        _ => false,
    }
}

/// A preopened directory by what the guest learns of it: the handle and the
/// path.
pub type PreopenView = (u32, Seq<u8>);

/// The preopened directories of a list.
pub open spec fn preopens_of(list: Seq<Preopen>) -> Seq<PreopenView> {
    Seq::new(list.len(), |i: int| (list[i].descriptor(), list[i].path()))
}

/// The descriptors that preopened directories get: each a file at position
/// zero, not in append mode.
pub open spec fn preopen_descriptors(list: Seq<PreopenView>) -> Seq<Descriptor> {
    Seq::new(list.len(), |i: int| Descriptor::Streams(Streams::spec_of_file(list[i].0, false)))
}

/// The process state.
pub struct State {
    pub(crate) magic1: u32,
    pub(crate) import_alloc: ImportAlloc,
    pub(crate) descriptors: DescriptorTable,
    pub(crate) long_lived_arena: BumpArena,
    pub(crate) args: Option<Vec<WasmStr>>,
    pub(crate) env_vars: Option<Vec<StrTuple>>,
    pub(crate) arg_preopens: Option<Vec<Preopen>>,
    pub(crate) env_preopens: Option<Vec<Preopen>>,
    pub(crate) dirent_cache: DirentCache,
    pub(crate) instance_monotonic_clock: Option<MonotonicClock>,
    pub(crate) instance_wall_clock: Option<WallClock>,
    pub(crate) magic2: u32,
}

impl State {
    /// The descriptor table.
    pub closed spec fn table(&self) -> DescriptorTable {
        self.descriptors
    }

    /// The directory cache.
    pub closed spec fn cache(&self) -> DirentCache {
        self.dirent_cache
    }

    /// The long-lived arena.
    pub closed spec fn arena(&self) -> BumpArena {
        self.long_lived_arena
    }

    /// What the import allocation coordinator serves requests from.
    pub closed spec fn alloc_mode(&self) -> AllocMode {
        self.import_alloc.mode()
    }

    /// The arguments of the program, once they are known.
    pub closed spec fn args(&self) -> Option<Seq<Seq<u8>>> {
        match self.args {
            Some(args) => Some(strings_of(args@)),
            None => None,
        }
    }

    /// The environment variables, each as a line, once they are known.
    pub closed spec fn env(&self) -> Option<Seq<Seq<u8>>> {
        match self.env_vars {
            Some(vars) => Some(lines_of(vars@)),
            None => None,
        }
    }

    /// The preopened directories that came with the arguments.
    pub closed spec fn arg_preopens(&self) -> Option<Seq<PreopenView>> {
        match self.arg_preopens {
            Some(list) => Some(preopens_of(list@)),
            None => None,
        }
    }

    /// The preopened directories that the environment gave, once they are
    /// known.
    pub closed spec fn env_preopens(&self) -> Option<Seq<PreopenView>> {
        match self.env_preopens {
            Some(list) => Some(preopens_of(list@)),
            None => None,
        }
    }

    /// The handle of the default monotonic clock, once it is known.
    pub closed spec fn monotonic_clock(&self) -> Option<MonotonicClock> {
        self.instance_monotonic_clock
    }

    /// The handle of the default wall clock, once it is known.
    pub closed spec fn wall_clock(&self) -> Option<WallClock> {
        self.instance_wall_clock
    }

    /// Whether both canary words hold their value.
    pub closed spec fn canaries_intact(&self) -> bool {
        self.magic1 == MAGIC && self.magic2 == MAGIC
    }

    /// The state is well formed: the table is well formed and holds the three
    /// standard descriptors, and what is kept for the guest fits its address
    /// space. Whether the canaries are intact is no part of this: they are there
    /// to be checked.
    pub open spec fn wf(&self) -> bool {
        &&& self.table().wf()
        &&& self.table()@.len() >= 3
        &&& self.arena().wf()
        &&& self.cache().wf()
        &&& (self.args() matches Some(args) ==> packed_len(args) <= usize::MAX)
        &&& (self.env() matches Some(env) ==> packed_len(env) <= usize::MAX)
    }

    /// All preopened directories: those that came with the arguments, then
    /// those that the environment gave.
    pub open spec fn preopens(&self) -> Seq<PreopenView> {
        (match self.arg_preopens() {
            Some(list) => list,
            None => Seq::empty(),
        }) + (match self.env_preopens() {
            Some(list) => list,
            None => Seq::empty(),
        })
    }

    /// The preopened directory that descriptor `fd` stands for: the
    /// directories take the descriptors from 3 on, in order.
    pub open spec fn spec_preopen(&self, fd: Fd) -> Option<PreopenView> {
        if 3 <= fd && fd - 3 < self.preopens().len() {
            Some(self.preopens()[fd - 3])
        } else {
            None
        }
    }

    /// Whether this is the state at the start of a process, with its arena at
    /// the address `arena_base`: descriptor 0 is a stream of unknown origin with
    /// nothing behind it yet, descriptors 1 and 2 are the error sink, and no
    /// slot is free; nothing of the arena is taken and no memory is provided for
    /// results; no listing is kept; and neither arguments nor environment,
    /// preopened directories or clocks are known. The canaries are intact.
    pub open spec fn is_new(&self, arena_base: usize) -> bool {
        &&& self.canaries_intact()
        &&& self.table()@ == seq![
            Descriptor::Streams(Streams { input: None, output: None, type_: StreamType::Unknown }),
            Descriptor::Stderr,
            Descriptor::Stderr,
        ]
        &&& self.table().free_list().len() == 0
        &&& self.arena().base() == arena_base
        &&& self.arena().position() == 0
        &&& self.alloc_mode() == AllocMode::Idle
        &&& self.cache().stream() is None
        &&& self.cache().for_fd() == 0
        &&& self.cache().cookie() == DIRCOOKIE_START
        &&& self.args() is None
        &&& self.env() is None
        &&& self.arg_preopens() is None
        &&& self.env_preopens() is None
        &&& self.monotonic_clock() is None
        &&& self.wall_clock() is None
    }

    /// The state at the start of a process, with its arena at the address
    /// `arena_base`.
    pub fn new(arena_base: usize) -> (r: Self)
        requires
            arena_base + spec_bump_arena_size() <= usize::MAX,
        ensures
            r.wf(),
            r.is_new(arena_base),
    {
        let mut state = State {
            magic1: MAGIC,
            import_alloc: ImportAlloc::new(),
            descriptors: DescriptorTable::new(),
            long_lived_arena: BumpArena::new(arena_base),
            args: None,
            env_vars: None,
            arg_preopens: None,
            env_preopens: None,
            dirent_cache: DirentCache::new(),
            instance_monotonic_clock: None,
            instance_wall_clock: None,
            magic2: MAGIC,
        };
        state.init();
        assert(state.table()@ =~= seq![
            Descriptor::Streams(Streams { input: None, output: None, type_: StreamType::Unknown }),
            Descriptor::Stderr,
            Descriptor::Stderr,
        ]);
        state
    }

    fn init(&mut self)
        requires
            old(self).descriptors.wf(),
            old(self).descriptors@.len() == 0,
        ensures
            final(self).descriptors.wf(),
            final(self).descriptors@ == old(self).descriptors@.push(
                Descriptor::Streams(
                    Streams { input: None, output: None, type_: StreamType::Unknown },
                ),
            ).push(Descriptor::Stderr).push(Descriptor::Stderr),
            final(self).descriptors.free_list() == old(self).descriptors.free_list(),
            final(self).magic1 == old(self).magic1,
            final(self).magic2 == old(self).magic2,
            final(self).import_alloc == old(self).import_alloc,
            final(self).long_lived_arena == old(self).long_lived_arena,
            final(self).args == old(self).args,
            final(self).env_vars == old(self).env_vars,
            final(self).arg_preopens == old(self).arg_preopens,
            final(self).env_preopens == old(self).env_preopens,
            final(self).dirent_cache == old(self).dirent_cache,
            final(self).instance_monotonic_clock == old(self).instance_monotonic_clock,
            final(self).instance_wall_clock == old(self).instance_wall_clock,
    {
        let _ = self.descriptors.push_desc(
            Descriptor::Streams(Streams { input: None, output: None, type_: StreamType::Unknown }),
        );
        let _ = self.descriptors.push_desc(Descriptor::Stderr);
        let _ = self.descriptors.push_desc(Descriptor::Stderr);
    }

    /// Checks the two canary words.
    pub fn check_canaries(&self) -> (r: bool)
        ensures
            r == self.canaries_intact(),
    {
        self.magic1 == MAGIC && self.magic2 == MAGIC
    }

    /// The number of slots of the descriptor table.
    pub fn descriptor_count(&self) -> (r: usize)
        ensures
            r == self.table()@.len(),
    {
        self.descriptors.len()
    }

    /// Looks up slot `fd`.
    pub fn get(&self, fd: Fd) -> (r: Result<Descriptor, Errno>)
        ensures
            r == self.table().spec_get(fd),
    {
        self.descriptors.get(fd)
    }

    /// Appends a slot to the descriptor table and returns its number, or
    /// reports that the table is full. An open descriptor is stored as it is;
    /// a closed one becomes a free slot at the head of the free list.
    pub fn push_desc(&mut self, desc: Descriptor) -> (r: Result<Fd, Errno>)
        requires
            old(self).wf(),
        ensures
            final(self).wf(),
            final(self).same_but_table(old(self)),
            old(self).table()@.len() >= MAX_DESCRIPTORS ==> r == Err::<Fd, Errno>(ERRNO_NOMEM)
                && final(self).same_table(old(self)),
            old(self).table()@.len() < MAX_DESCRIPTORS ==> r == Ok::<Fd, Errno>(
                old(self).table()@.len() as Fd,
            ) && final(self).table()@.len() == old(self).table()@.len() + 1 && same_except(
                old(self).table()@,
                final(self).table()@,
                -1,
                -1,
            ) && if desc.is_open() {
                final(self).table()@ == old(self).table()@.push(desc)
                    && final(self).table().free_list() == old(self).table().free_list()
            } else {
                !final(self).table()@.last().is_open() && final(self).table().free_list() == seq![
                    old(self).table()@.len() as Fd,
                ] + old(self).table().free_list()
            },
    {
        self.descriptors.push_desc(desc)
    }

    /// Looks up the streams in slot `fd`.
    pub fn get_stream_with_error(&self, fd: Fd, error: Errno) -> (r: Result<Streams, Errno>)
        ensures
            r == self.table().spec_stream_with_error(fd, error),
    {
        self.descriptors.get_stream_with_error(fd, error)
    }

    /// Looks up the file in slot `fd`.
    pub fn get_file_with_error(&self, fd: Fd, error: Errno) -> (r: Result<File, Errno>)
        ensures
            r == self.table().spec_file_with_error(fd, error),
    {
        self.descriptors.get_file_with_error(fd, error)
    }

    /// Looks up the socket in slot `fd`.
    pub fn get_socket(&self, fd: Fd) -> (r: Result<TcpSocket, Errno>)
        ensures
            r == self.table().spec_socket(fd),
    {
        self.descriptors.get_socket(fd)
    }

    /// Looks up the file in slot `fd` for an operation on a file.
    pub fn get_file(&self, fd: Fd) -> (r: Result<File, Errno>)
        ensures
            r == self.table().spec_file_with_error(fd, ERRNO_INVAL),
    {
        self.descriptors.get_file(fd)
    }

    /// Looks up the file in slot `fd` for an operation on a directory.
    pub fn get_dir(&self, fd: Fd) -> (r: Result<File, Errno>)
        ensures
            r == self.table().spec_file_with_error(fd, ERRNO_NOTDIR),
    {
        self.descriptors.get_dir(fd)
    }

    /// Looks up the file in slot `fd` for an operation that needs a position.
    pub fn get_seekable_file(&self, fd: Fd) -> (r: Result<File, Errno>)
        ensures
            r == self.table().spec_file_with_error(fd, ERRNO_SPIPE),
    {
        self.descriptors.get_seekable_file(fd)
    }

    /// Looks up the streams in slot `fd` for a seek.
    pub fn get_seekable_stream(&self, fd: Fd) -> (r: Result<Streams, Errno>)
        ensures
            r == self.table().spec_stream_with_error(fd, ERRNO_SPIPE),
    {
        self.descriptors.get_seekable_stream(fd)
    }

    /// Says how to come by the input stream of slot `fd`.
    pub fn get_read_stream(&self, fd: Fd) -> (r: Result<Source, Errno>)
        ensures
            r == self.table().spec_read_stream(fd),
    {
        self.descriptors.get_read_stream(fd)
    }

    /// Says how to come by the output stream of slot `fd`.
    pub fn get_write_stream(&self, fd: Fd) -> (r: Result<Source, Errno>)
        ensures
            r == self.table().spec_write_stream(fd),
    {
        self.descriptors.get_write_stream(fd)
    }

    /// Whether two states agree on their descriptor table: on what each slot
    /// holds and on the order of the free slots.
    pub open spec fn same_table(&self, other: &State) -> bool {
        &&& self.table()@ == other.table()@
        &&& self.table().free_list() == other.table().free_list()
    }

    /// Whether two states agree on their memory: the canaries, the arena,
    /// the import allocation coordinator and the directory cache.
    pub open spec fn same_memory(&self, other: &State) -> bool {
        &&& self.canaries_intact() == other.canaries_intact()
        &&& self.cache() == other.cache()
        &&& self.arena() == other.arena()
        &&& self.alloc_mode() == other.alloc_mode()
    }

    /// Whether two states agree on what the host has told them once:
    /// arguments, environment variables and preopened directories.
    pub open spec fn same_lists(&self, other: &State) -> bool {
        &&& self.args() == other.args()
        &&& self.env() == other.env()
        &&& self.arg_preopens() == other.arg_preopens()
        &&& self.env_preopens() == other.env_preopens()
    }

    /// Whether two states agree on the handles of the default clocks.
    pub open spec fn same_clocks(&self, other: &State) -> bool {
        &&& self.monotonic_clock() == other.monotonic_clock()
        &&& self.wall_clock() == other.wall_clock()
    }

    /// Whether only the descriptor table differs between two states.
    pub open spec fn same_but_table(&self, other: &State) -> bool {
        &&& self.same_memory(other)
        &&& self.same_lists(other)
        &&& self.same_clocks(other)
    }

    /// The streams of slot `fd` with `stream` as their input stream.
    pub open spec fn spec_with_input(&self, fd: Fd, stream: InputStream) -> Seq<Descriptor> {
        match self.table().spec_get(fd) {
            Ok(Descriptor::Streams(streams)) => self.table()@.update(
                fd as int,
                Descriptor::Streams(Streams { input: Some(stream), ..streams }),
            ),
            _ => self.table()@,
        }
    }

    /// The streams of slot `fd` with `stream` as their output stream.
    pub open spec fn spec_with_output(&self, fd: Fd, stream: OutputStream) -> Seq<Descriptor> {
        match self.table().spec_get(fd) {
            Ok(Descriptor::Streams(streams)) => self.table()@.update(
                fd as int,
                Descriptor::Streams(Streams { output: Some(stream), ..streams }),
            ),
            _ => self.table()@,
        }
    }

    /// Records the input stream that was created for slot `fd`. In a slot
    /// without streams nothing is recorded.
    pub fn set_read_stream(&mut self, fd: Fd, stream: InputStream)
        requires
            old(self).wf(),
        ensures
            final(self).wf(),
            final(self).same_but_table(old(self)),
            final(self).table()@ == old(self).spec_with_input(fd, stream),
            final(self).table().free_list() == old(self).table().free_list(),
    {
        match self.descriptors.get(fd) {
            Ok(Descriptor::Streams(streams)) => {
                let changed = Streams {
                    input: Some(stream),
                    output: streams.output,
                    type_: streams.type_,
                };
                self.descriptors.set_streams(fd, changed);
            },
            _ => {},
        }
    }

    /// Records the output stream that was created for slot `fd`. In a slot
    /// without streams nothing is recorded.
    pub fn set_write_stream(&mut self, fd: Fd, stream: OutputStream)
        requires
            old(self).wf(),
        ensures
            final(self).wf(),
            final(self).same_but_table(old(self)),
            final(self).table()@ == old(self).spec_with_output(fd, stream),
            final(self).table().free_list() == old(self).table().free_list(),
    {
        match self.descriptors.get(fd) {
            Ok(Descriptor::Streams(streams)) => {
                let changed = Streams {
                    input: streams.input,
                    output: Some(stream),
                    type_: streams.type_,
                };
                self.descriptors.set_streams(fd, changed);
            },
            _ => {},
        }
    }

    /// Gives each preopened directory of a list a new slot at the end of the
    /// table, in order. The table must have room for all of them.
    pub fn process_preopens(&mut self, preopens: &Vec<Preopen>)
        requires
            old(self).wf(),
            old(self).table()@.len() + preopens@.len() <= MAX_DESCRIPTORS,
        ensures
            final(self).wf(),
            final(self).same_but_table(old(self)),
            final(self).table()@ == old(self).table()@ + preopen_descriptors(
                preopens_of(preopens@),
            ),
            final(self).table().free_list() == old(self).table().free_list(),
    {
        let ghost all = preopen_descriptors(preopens_of(preopens@));
        let mut i: usize = 0;
        assert(self.table()@ =~= old(self).table()@ + all.take(0));
        while i < preopens.len()
            invariant
                i <= preopens@.len(),
                self.wf(),
                self.same_but_table(old(self)),
                all == preopen_descriptors(preopens_of(preopens@)),
                old(self).table()@.len() + preopens@.len() <= MAX_DESCRIPTORS,
                self.table()@ == old(self).table()@ + all.take(i as int),
                self.table().free_list() == old(self).table().free_list(),
            decreases preopens@.len() - i,
        {
            let streams = Streams::of_file(preopens[i].get_descriptor(), false);
            let _ = self.descriptors.push_desc(Descriptor::Streams(streams));
            i = i + 1;
            assert(self.table()@ =~= old(self).table()@ + all.take(i as int));
        }
        assert(all.take(i as int) =~= all);
    }

    /// Starts a command: the three standard descriptors get their streams,
    /// the arguments are recorded, and each preopened directory that came with
    /// them gets a slot at the end of the table. Returns what the three
    /// standard slots held before.
    pub fn start_command(
        &mut self,
        stdin: InputStream,
        stdout: OutputStream,
        stderr: OutputStream,
        args: Vec<WasmStr>,
        preopens: PreopenList,
    ) -> (r: (Released, Released, Released))
        requires
            old(self).wf(),
            packed_len(strings_of(args@)) <= usize::MAX,
            old(self).table()@.len() + preopens.paths().len() <= MAX_DESCRIPTORS,
        ensures
            final(self).wf(),
            final(self).same_memory(old(self)),
            final(self).same_clocks(old(self)),
            final(self).env() == old(self).env(),
            final(self).args() == Some(strings_of(args@)),
            final(self).env_preopens() == old(self).env_preopens(),
            final(self).arg_preopens() matches Some(list) && list.len() == preopens.paths().len()
                && (forall|i: int|
                0 <= i < list.len() ==> (#[trigger] list[i]) == (
                    preopens.descriptors()[i],
                    preopens.paths()[i],
                )) && final(self).table()@.len() == old(self).table()@.len() + list.len()
                && final(self).table()@.subrange(
                old(self).table()@.len() as int,
                final(self).table()@.len() as int,
            ) == preopen_descriptors(list),
            final(self).table()@[0] == Descriptor::Streams(
                Streams { input: Some(stdin), output: None, type_: StreamType::Unknown },
            ),
            final(self).table()@[1] == Descriptor::Streams(
                Streams { input: None, output: Some(stdout), type_: StreamType::Unknown },
            ),
            final(self).table()@[2] == Descriptor::Streams(
                Streams { input: None, output: Some(stderr), type_: StreamType::Unknown },
            ),
            forall|i: int|
                3 <= i < old(self).table()@.len() ==> (if (
                #[trigger] old(self).table()@[i]).is_open() {
                    final(self).table()@[i] == old(self).table()@[i]
                } else {
                    !final(self).table()@[i].is_open()
                }),
            final(self).table().free_list() == without(
                without(without(old(self).table().free_list(), 0), 1),
                2,
            ),
            r.0 == old(self).table()@[0].spec_release(),
            r.1 == old(self).table()@[1].spec_release(),
            r.2 == old(self).table()@[2].spec_release(),
    {
        let ghost t0 = self.table()@;
        let r0 = self.descriptors.set(
            0,
            Descriptor::Streams(
                Streams { input: Some(stdin), output: None, type_: StreamType::Unknown },
            ),
        );
        let ghost t1 = self.table()@;
        let r1 = self.descriptors.set(
            1,
            Descriptor::Streams(
                Streams { input: None, output: Some(stdout), type_: StreamType::Unknown },
            ),
        );
        let ghost t2 = self.table()@;
        let r2 = self.descriptors.set(
            2,
            Descriptor::Streams(
                Streams { input: None, output: Some(stderr), type_: StreamType::Unknown },
            ),
        );
        let ghost t3 = self.table()@;
        proof {
            assert forall|i: int| 3 <= i < t0.len() implies (if (#[trigger] t0[i]).is_open() {
                t3[i] == t0[i]
            } else {
                !t3[i].is_open()
            }) by {
                assert(t1[i].is_open() == t0[i].is_open());
                assert(t2[i].is_open() == t1[i].is_open());
                assert(t3[i].is_open() == t2[i].is_open());
            }
            assert(t1[1].is_open() == t0[1].is_open());
            assert(t1[2].is_open() == t0[2].is_open());
            assert(t2[2].is_open() == t1[2].is_open());
            assert(t2[0] == t1[0]);
            assert(t3[0] == t2[0]);
            assert(t3[1] == t2[1]);
        }
        self.args = Some(args);
        let list: Vec<Preopen> = preopens.into_items();
        self.process_preopens(&list);
        let ghost shown = preopens_of(list@);
        proof {
            assert(self.table()@.subrange(t0.len() as int, self.table()@.len() as int)
                =~= preopen_descriptors(shown));
        }
        self.arg_preopens = Some(list);
        (r0, r1, r2)
    }

    /// The operation that makes the environment variables known, while they
    /// are not.
    pub fn environment_request(&self) -> (r: Option<HostCall>)
        ensures
            r == (if self.env() is None {
                Some(HostCall::GetEnvironment { into: ResultBuffer::Arena })
            } else {
                None
            }),
    {
        match self.env_vars {
            None => Some(HostCall::GetEnvironment { into: ResultBuffer::Arena }),
            Some(_) => None,
        }
    }

    /// Records the environment variables. They are recorded once: variables
    /// that are known stay. The packed lines must fit the address space.
    pub fn set_environment(&mut self, list: StrTupleList)
        requires
            old(self).wf(),
            packed_len(list.lines()) <= usize::MAX,
        ensures
            final(self).wf(),
            final(self).same_table(old(self)),
            final(self).same_memory(old(self)),
            final(self).same_clocks(old(self)),
            final(self).args() == old(self).args(),
            final(self).arg_preopens() == old(self).arg_preopens(),
            final(self).env_preopens() == old(self).env_preopens(),
            final(self).env() == (match old(self).env() {
                Some(env) => Some(env),
                None => Some(list.lines()),
            }),
    {
        match self.env_vars {
            Some(_) => {},
            None => {
                let items = list.into_items();
                assert(lines_of(items@) =~= list.lines());
                self.env_vars = Some(items);
            },
        }
    }

    /// The operation that makes the environment's preopened directories
    /// known, while they are not.
    pub fn preopens_request(&self) -> (r: Option<HostCall>)
        ensures
            r == (if self.env_preopens() is None {
                Some(HostCall::GetPreopens { into: ResultBuffer::Arena })
            } else {
                None
            }),
    {
        match self.env_preopens {
            None => Some(HostCall::GetPreopens { into: ResultBuffer::Arena }),
            Some(_) => None,
        }
    }

    /// Records the preopened directories that the environment gave, and gives
    /// each a slot at the end of the table. They are recorded once:
    /// directories that are known stay. The table must have room for all of
    /// them.
    pub fn set_preopens(&mut self, list: PreopenList)
        requires
            old(self).wf(),
            old(self).env_preopens() is None ==> old(self).table()@.len() + list.paths().len()
                <= MAX_DESCRIPTORS,
        ensures
            final(self).wf(),
            final(self).same_memory(old(self)),
            final(self).same_clocks(old(self)),
            final(self).env() == old(self).env(),
            final(self).args() == old(self).args(),
            final(self).arg_preopens() == old(self).arg_preopens(),
            old(self).env_preopens() is Some ==> final(self).env_preopens() == old(
                self,
            ).env_preopens() && final(self).same_table(old(self)),
            old(self).env_preopens() is None ==> (final(self).env_preopens() matches Some(shown)
                && shown.len() == list.paths().len() && (forall|i: int|
                0 <= i < shown.len() ==> (#[trigger] shown[i]) == (
                    list.descriptors()[i],
                    list.paths()[i],
                )) && final(self).table()@ == old(self).table()@ + preopen_descriptors(shown)
                && final(self).table().free_list() == old(self).table().free_list()),
    {
        match self.env_preopens {
            Some(_) => {},
            None => {
                let items: Vec<Preopen> = list.into_items();
                self.process_preopens(&items);
                self.env_preopens = Some(items);
            },
        }
    }

    /// Looks up the preopened directory that descriptor `fd` stands for.
    pub fn get_preopen(&self, fd: Fd) -> (r: Option<&Preopen>)
        ensures
            match r {
                Some(preopen) => self.spec_preopen(fd) == Some(
                    (preopen.descriptor(), preopen.path()),
                ),
                None => self.spec_preopen(fd) is None,
            },
    {
        if fd < 3 {
            return None;
        }
        let mut index: usize = (fd - 3) as usize;
        match &self.arg_preopens {
            Some(list) => {
                if index < list.len() {
                    return Some(&list[index]);
                }
                index = index - list.len();
            },
            None => {},
        }
        match &self.env_preopens {
            Some(list) => {
                if index < list.len() {
                    Some(&list[index])
                } else {
                    None
                }
            },
            None => None,
        }
    }

    /// Says how to come by the default monotonic clock.
    pub fn instance_monotonic_clock(&self) -> (r: Source)
        ensures
            r == (match self.monotonic_clock() {
                Some(clock) => Source::Ready(clock),
                None => Source::Create(HostCall::InstanceMonotonicClock),
            }),
    {
        match self.instance_monotonic_clock {
            Some(clock) => Source::Ready(clock),
            None => Source::Create(HostCall::InstanceMonotonicClock),
        }
    }

    /// Records the handle of the default monotonic clock.
    pub fn init_instance_monotonic_clock(&mut self, clock: MonotonicClock)
        ensures
            final(self).monotonic_clock() == Some(clock),
            final(self).wf() == old(self).wf(),
            final(self).same_table(old(self)),
            final(self).same_memory(old(self)),
            final(self).same_lists(old(self)),
            final(self).wall_clock() == old(self).wall_clock(),
    {
        self.instance_monotonic_clock = Some(clock);
    }

    /// Says how to come by the default wall clock.
    pub fn instance_wall_clock(&self) -> (r: Source)
        ensures
            r == (match self.wall_clock() {
                Some(clock) => Source::Ready(clock),
                None => Source::Create(HostCall::InstanceWallClock),
            }),
    {
        match self.instance_wall_clock {
            Some(clock) => Source::Ready(clock),
            None => Source::Create(HostCall::InstanceWallClock),
        }
    }

    /// Records the handle of the default wall clock.
    pub fn init_instance_wall_clock(&mut self, clock: WallClock)
        ensures
            final(self).wall_clock() == Some(clock),
            final(self).wf() == old(self).wf(),
            final(self).same_table(old(self)),
            final(self).same_memory(old(self)),
            final(self).same_lists(old(self)),
            final(self).monotonic_clock() == old(self).monotonic_clock(),
    {
        self.instance_wall_clock = Some(clock);
    }

    /// Whether two states agree on everything but the arena and the import
    /// allocation coordinator.
    pub open spec fn same_but_memory(&self, other: &State) -> bool {
        &&& self.canaries_intact() == other.canaries_intact()
        &&& self.cache() == other.cache()
        &&& self.same_table(other)
        &&& self.same_lists(other)
        &&& self.same_clocks(other)
    }

    /// What the import allocation coordinator serves requests from.
    pub fn current_alloc_mode(&self) -> (r: AllocMode)
        ensures
            r == self.alloc_mode(),
    {
        self.import_alloc.current_mode()
    }

    /// Provides a buffer for the one variable-length result of the next host
    /// operation. Nothing else may be provided at this time.
    pub fn enter_buffer(&mut self, buffer: usize, len: usize)
        requires
            old(self).alloc_mode() == AllocMode::Idle,
        ensures
            final(self).same_but_memory(old(self)),
            final(self).arena() == old(self).arena(),
            final(self).wf() == old(self).wf(),
            buffer != 0 ==> final(self).alloc_mode() == (AllocMode::Buffer { ptr: buffer, len }),
            buffer == 0 ==> final(self).alloc_mode() == AllocMode::Idle,
    {
        self.import_alloc.enter_buffer(buffer, len);
    }

    /// Takes the buffer back, used or not.
    pub fn exit_buffer(&mut self)
        ensures
            final(self).same_but_memory(old(self)),
            final(self).arena() == old(self).arena(),
            final(self).wf() == old(self).wf(),
            old(self).alloc_mode() == AllocMode::Arena ==> final(self).alloc_mode()
                == AllocMode::Arena,
            old(self).alloc_mode() != AllocMode::Arena ==> final(self).alloc_mode()
                == AllocMode::Idle,
    {
        self.import_alloc.exit_buffer();
    }

    /// Provides the long-lived arena for the results of the next host
    /// operations. Nothing else may be provided at this time.
    pub fn enter_arena(&mut self)
        requires
            old(self).alloc_mode() == AllocMode::Idle,
        ensures
            final(self).same_but_memory(old(self)),
            final(self).arena() == old(self).arena(),
            final(self).wf() == old(self).wf(),
            final(self).alloc_mode() == AllocMode::Arena,
    {
        self.import_alloc.enter_arena();
    }

    /// Takes the arena back.
    pub fn exit_arena(&mut self)
        ensures
            final(self).same_but_memory(old(self)),
            final(self).arena() == old(self).arena(),
            final(self).wf() == old(self).wf(),
            old(self).alloc_mode() == AllocMode::Arena ==> final(self).alloc_mode()
                == AllocMode::Idle,
            old(self).alloc_mode() != AllocMode::Arena ==> final(self).alloc_mode() == old(
                self,
            ).alloc_mode(),
    {
        self.import_alloc.exit_arena();
    }

    /// Decides whether `cabi_import_realloc` can serve this request.
    pub fn can_import_realloc(
        &self,
        old_ptr: usize,
        old_size: usize,
        align: usize,
        new_size: usize,
    ) -> (r: bool)
        requires
            self.wf(),
        ensures
            r == (old_ptr == 0 && old_size == 0 && is_power_of_two(align) && spec_can_alloc(
                self.alloc_mode(),
                self.arena(),
                align,
                new_size,
            )),
    {
        old_ptr == 0 && old_size == 0 && check_power_of_two(align) && self.import_alloc.can_alloc(
            &self.long_lived_arena,
            align,
            new_size,
        )
    }

    /// Serves the request of a host operation for memory for its result: a
    /// new region of `new_size` bytes at the alignment `align`, from the buffer
    /// or the arena that was provided. An existing region never grows.
    pub fn cabi_import_realloc(
        &mut self,
        old_ptr: usize,
        old_size: usize,
        align: usize,
        new_size: usize,
    ) -> (r: usize)
        requires
            old(self).wf(),
            old_ptr == 0,
            old_size == 0,
            is_power_of_two(align),
            spec_can_alloc(old(self).alloc_mode(), old(self).arena(), align, new_size),
        ensures
            final(self).wf(),
            final(self).same_but_memory(old(self)),
            final(self).arena().base() == old(self).arena().base(),
            r % align == 0,
            match old(self).alloc_mode() {
                AllocMode::Idle => false,
                AllocMode::Buffer { ptr, len } => {
                    &&& r == spec_align_to(ptr as int, align as int)
                    &&& ptr <= r
                    &&& r + new_size <= ptr + len
                    &&& final(self).alloc_mode() == AllocMode::Idle
                    &&& final(self).arena() == old(self).arena()
                },
                AllocMode::Arena => {
                    &&& r == old(self).arena().next(align)
                    &&& old(self).arena().base() + old(self).arena().position() <= r
                    &&& final(self).arena().position() == r + new_size - old(self).arena().base()
                    &&& final(self).alloc_mode() == AllocMode::Arena
                },
            },
    {
        self.import_alloc.allocate(&mut self.long_lived_arena, align, new_size)
    }

    /// Decides whether `cabi_export_realloc` can serve this request.
    pub fn can_export_realloc(
        &self,
        old_ptr: usize,
        old_size: usize,
        align: usize,
        new_size: usize,
    ) -> (r: bool)
        requires
            self.wf(),
        ensures
            r == (old_ptr == 0 && old_size == 0 && is_power_of_two(align) && self.arena().fits(
                align,
                new_size,
            )),
    {
        old_ptr == 0 && old_size == 0 && check_power_of_two(align)
            && self.long_lived_arena.can_alloc(align, new_size)
    }

    /// Serves a request for memory for what is passed to the program at its
    /// start: a new region from the long-lived arena.
    pub fn cabi_export_realloc(
        &mut self,
        old_ptr: usize,
        old_size: usize,
        align: usize,
        new_size: usize,
    ) -> (r: usize)
        requires
            old(self).wf(),
            old_ptr == 0,
            old_size == 0,
            is_power_of_two(align),
            old(self).arena().fits(align, new_size),
        ensures
            final(self).wf(),
            final(self).same_but_memory(old(self)),
            final(self).alloc_mode() == old(self).alloc_mode(),
            final(self).arena().base() == old(self).arena().base(),
            r == old(self).arena().next(align),
            r % align == 0,
            old(self).arena().base() + old(self).arena().position() <= r,
            r + new_size <= old(self).arena().base() + spec_bump_arena_size(),
            final(self).arena().position() == r + new_size - old(self).arena().base(),
    {
        self.long_lived_arena.allocate(align, new_size)
    }
}

} // verus!
