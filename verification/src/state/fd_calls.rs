//! The calls of the flat interface that work on one descriptor.

use vstd::prelude::*;
use crate::arena::MAX_DESCRIPTORS;
use crate::bytes::push_prefix;
use crate::capability::{
    DescriptorFlags, DescriptorHandle, DescriptorStat, DescriptorType, DirectoryEntryStream,
    ErrorCode, HostCall, Plan, ResultBuffer, Source,
};
use crate::console::print;
use crate::descriptor::{
    Descriptor, File, Released, StreamType, Streams, nothing_released, spec_nothing_released,
};
use crate::flat::{
    Dircookie, ERRNO_BADF, ERRNO_INTR, ERRNO_INVAL, ERRNO_IO, ERRNO_NAMETOOLONG, ERRNO_NOMEM,
    ERRNO_NOTDIR, ERRNO_NOTSUP, ERRNO_SPIPE, ERRNO_SUCCESS, Errno, FDFLAGS_APPEND,
    FDFLAGS_DSYNC, FDFLAGS_NONBLOCK, FDFLAGS_RSYNC, FDFLAGS_SYNC, FILETYPE_UNKNOWN,
    FSTFLAGS_ATIM, FSTFLAGS_ATIM_NOW, FSTFLAGS_MTIM, FSTFLAGS_MTIM_NOW, Fd, Fdflags, Filedelta,
    Filesize, Fstflags, PREOPENTYPE_DIR, RIGHTS_FD_READ, RIGHTS_FD_WRITE, Rights, Size,
    Timestamp, WHENCE_CUR, WHENCE_END, WHENCE_SET, Whence,
};
use crate::readdir::{
    Readdir, ReaddirOutcome, clipped, spec_begin, wire_all,
};
use crate::records::{
    FdStat, Filestat, Iovec, Prestat, first_nonempty,
};
use crate::state::{
    AllocationState, State, spec_state_available, state_available,
};
use crate::table::{
    DescriptorTable, grown_free, same_except, without,
};
use crate::translate::{
    advice_from_code, atim_from_fstflags, bit64, descriptor_flags_from_fdflags,
    errno_from_error_code, file_rights, filetype_from_descriptor_type,
    flags_from_descriptor_flags, has16, mtim_from_fstflags, spec_advice, spec_errno,
    spec_fdflags, spec_file_rights, spec_filetype, spec_new_timestamp,
};

verus! {

/// The result of an operation that reports nothing but success or an error.
pub open spec fn spec_errno_of_reply(reply: Result<(), ErrorCode>) -> Errno {
    match reply {
        Ok(_) => ERRNO_SUCCESS,
        Err(err) => spec_errno(err),
    }
}

/// Translates the outcome of an operation that reports nothing but success or
/// an error.
pub fn errno_of_reply(reply: Result<(), ErrorCode>) -> (r: Errno)
    ensures
        r == spec_errno_of_reply(reply),
{
    match reply {
        Ok(_) => ERRNO_SUCCESS,
        Err(err) => errno_from_error_code(err),
    }
}

/// What a read reports for `len` bytes read and the end of the data reached
/// or not: no bytes before the end is an interruption.
pub open spec fn spec_read_result(len: Size, end: bool) -> Result<Size, Errno> {
    if !end && len == 0 {
        Err(ERRNO_INTR)
    } else {
        Ok(len)
    }
}

/// A number brought into the range of a position by adding or taking away
/// 2^64 once.
pub open spec fn wrap64(x: int) -> u64 {
    if x < 0 {
        (x + 0x1_0000_0000_0000_0000) as u64
    } else if x > u64::MAX {
        (x - 0x1_0000_0000_0000_0000) as u64
    } else {
        x as u64
    }
}

/// Where a seek goes: `offset` from the start of the file, from the current
/// position or from the end of the file. Any other origin is not defined.
pub open spec fn spec_seek_target(
    whence: Whence,
    position: Filesize,
    size: Filesize,
    offset: Filedelta,
) -> Option<Filesize> {
    if whence == WHENCE_SET {
        Some(wrap64(offset as int))
    } else if whence == WHENCE_CUR {
        Some(wrap64(position + offset))
    } else if whence == WHENCE_END {
        Some(wrap64(size + offset))
    } else {
        None
    }
}

/// Streams after a seek: the position is the target, and no stream is
/// recorded any more, since a stream is bound to the position it was created
/// at.
pub open spec fn spec_sought(streams: Streams, file: File, target: Filesize) -> Streams {
    Streams {
        input: None,
        output: None,
        type_: StreamType::File(File { position: target, ..file }),
    }
}

/// The streams that a descriptor gives up when its recorded streams are
/// dropped.
pub open spec fn spec_dropped_streams(streams: Streams) -> Released {
    Released { input: streams.input, output: streams.output, ..spec_nothing_released() }
}

/// The table after `len` bytes were read or written through slot `fd`: the
/// position of a file advances by `len`, except for a write in append mode,
/// which leaves it where it is. Anything but a file has no position.
pub open spec fn spec_moved(
    table: Seq<Descriptor>,
    fd: Fd,
    len: u64,
    write: bool,
) -> Seq<Descriptor> {
    if fd < table.len() {
        match table[fd as int] {
            Descriptor::Streams(streams) => match streams.type_ {
                StreamType::File(file) => if write && file.append {
                    table
                } else {
                    table.update(
                        fd as int,
                        Descriptor::Streams(
                            Streams {
                                type_: StreamType::File(
                                    File { position: wrap64(file.position + len), ..file },
                                ),
                                ..streams
                            },
                        ),
                    )
                },
                _ => table,
            },
            _ => table,
        }
    } else {
        table
    }
}

/// Whether buffer `i` is the first buffer of the list that is not empty: the
/// one buffer that a read or a write uses.
pub open spec fn is_first_nonempty(iovs: Seq<Iovec>, i: int) -> bool {
    &&& 0 <= i < iovs.len()
    &&& iovs[i].buf_len != 0
    &&& forall|j: int| 0 <= j < i ==> iovs[j].buf_len == 0
}

/// Whether every buffer of the list is empty.
pub open spec fn all_empty(iovs: Seq<Iovec>) -> bool {
    forall|j: int| 0 <= j < iovs.len() ==> iovs[j].buf_len == 0
}

/// The request of a call that needs the file in slot `fd`: the lookup error,
/// or the operation on the file's handle.
pub open spec fn on_file(
    file: Result<File, Errno>,
    call: spec_fn(DescriptorHandle) -> HostCall,
) -> Plan<Errno> {
    match file {
        Ok(file) => Plan::Finish(call(file.fd)),
        Err(errno) => Plan::Done(errno),
    }
}

/// Every right but the right to read.
pub const RIGHTS_ALL_BUT_READ: Rights = 0xffff_ffff_ffff_fffd;

/// The status of a descriptor that is no file: no file type and no flags are
/// known, and the rights say what can be done with it.
pub open spec fn plain_fdstat(rights: Rights) -> FdStat {
    FdStat {
        fs_filetype: FILETYPE_UNKNOWN,
        fs_flags: 0,
        fs_rights_base: rights,
        fs_rights_inheriting: rights,
    }
}

/// The status of a file with these flags, this type and this append mode.
pub open spec fn spec_file_fdstat(
    flags: DescriptorFlags,
    type_: DescriptorType,
    append: bool,
) -> FdStat {
    FdStat {
        fs_filetype: spec_filetype(type_),
        fs_flags: spec_fdflags(flags, append) as u16,
        fs_rights_base: spec_file_rights(flags) as u64,
        fs_rights_inheriting: spec_file_rights(flags) as u64,
    }
}

/// The rights of streams that are no file: reading where there is an input
/// stream, writing where there is an output stream.
pub open spec fn spec_stream_rights(streams: Streams) -> int {
    bit64(streams.input is Some, RIGHTS_FD_READ) + bit64(streams.output is Some, RIGHTS_FD_WRITE)
}

/// Computes the status of a file.
pub fn file_fdstat(flags: DescriptorFlags, type_: DescriptorType, append: bool) -> (r: FdStat)
    requires
        type_ != DescriptorType::Socket,
    ensures
        r == spec_file_fdstat(flags, type_, append),
{
    let (fdflags, _) = flags_from_descriptor_flags(flags);
    let fs_flags: Fdflags = if append {
        fdflags + FDFLAGS_APPEND
    } else {
        fdflags
    };
    let rights = file_rights(flags);
    FdStat {
        fs_filetype: filetype_from_descriptor_type(type_),
        fs_flags,
        fs_rights_base: rights,
        fs_rights_inheriting: rights,
    }
}

impl State {
    /// `fd_advise`: an advice code that the flat interface does not define is
    /// an invalid argument, whatever the descriptor; otherwise the advice goes
    /// to the file in slot `fd`, which must be one that has a position.
    pub open spec fn spec_fd_advise(
        &self,
        fd: Fd,
        offset: Filesize,
        len: Filesize,
        advice: u8,
    ) -> Plan<Errno> {
        match spec_advice(advice) {
            None => Plan::Done(ERRNO_INVAL),
            Some(advice) => on_file(
                self.table().spec_file_with_error(fd, ERRNO_SPIPE),
                |handle: DescriptorHandle| HostCall::Advise { fd: handle, offset, len, advice },
            ),
        }
    }

    /// Provides advice on how a range of a file will be accessed.
    pub fn fd_advise(&self, fd: Fd, offset: Filesize, len: Filesize, advice: u8) -> (r: Plan<Errno>)
        ensures
            r == self.spec_fd_advise(fd, offset, len, advice),
    {
        match advice_from_code(advice) {
            None => Plan::Done(ERRNO_INVAL),
            Some(advice) => match self.get_seekable_file(fd) {
                Ok(file) => Plan::Finish(HostCall::Advise { fd: file.fd, offset, len, advice }),
                Err(errno) => Plan::Done(errno),
            },
        }
    }

    /// Forces the allocation of space in a file. The adapter does not support
    /// it.
    pub fn fd_allocate(&self, fd: Fd, offset: Filesize, len: Filesize) -> (r: Errno)
        ensures
            r == ERRNO_NOTSUP,
    {
        ERRNO_NOTSUP
    }

    /// Adjusts the rights of a descriptor. The adapter does not support it.
    pub fn fd_fdstat_set_rights(
        &self,
        fd: Fd,
        fs_rights_base: Rights,
        fs_rights_inheriting: Rights,
    ) -> (r: Errno)
        ensures
            r == ERRNO_NOTSUP,
    {
        ERRNO_NOTSUP
    }

    /// Synchronizes the data of a file to disk.
    pub fn fd_datasync(&self, fd: Fd) -> (r: Plan<Errno>)
        ensures
            r == on_file(
                self.table().spec_file_with_error(fd, ERRNO_INVAL),
                |handle: DescriptorHandle| HostCall::SyncData { fd: handle },
            ),
    {
        match self.get_file(fd) {
            Ok(file) => Plan::Finish(HostCall::SyncData { fd: file.fd }),
            Err(errno) => Plan::Done(errno),
        }
    }

    /// Synchronizes the data and metadata of a file to disk.
    pub fn fd_sync(&self, fd: Fd) -> (r: Plan<Errno>)
        ensures
            r == on_file(
                self.table().spec_file_with_error(fd, ERRNO_INVAL),
                |handle: DescriptorHandle| HostCall::Sync { fd: handle },
            ),
    {
        match self.get_file(fd) {
            Ok(file) => Plan::Finish(HostCall::Sync { fd: file.fd }),
            Err(errno) => Plan::Done(errno),
        }
    }

    /// Adjusts the size of an open file.
    pub fn fd_filestat_set_size(&self, fd: Fd, size: Filesize) -> (r: Plan<Errno>)
        ensures
            r == on_file(
                self.table().spec_file_with_error(fd, ERRNO_INVAL),
                |handle: DescriptorHandle| HostCall::SetSize { fd: handle, size },
            ),
    {
        match self.get_file(fd) {
            Ok(file) => Plan::Finish(HostCall::SetSize { fd: file.fd, size }),
            Err(errno) => Plan::Done(errno),
        }
    }

    /// Adjusts the timestamps of an open file or directory. The flags say
    /// for each of the two timestamps whether it is set to the given time, to
    /// the current time, or left as it is.
    pub fn fd_filestat_set_times(
        &self,
        fd: Fd,
        atim: Timestamp,
        mtim: Timestamp,
        fst_flags: Fstflags,
    ) -> (r: Plan<Errno>)
        ensures
            r == on_file(
                self.table().spec_file_with_error(fd, ERRNO_INVAL),
                |handle: DescriptorHandle|
                    HostCall::SetTimes {
                        fd: handle,
                        atim: spec_new_timestamp(atim, fst_flags, FSTFLAGS_ATIM, FSTFLAGS_ATIM_NOW),
                        mtim: spec_new_timestamp(mtim, fst_flags, FSTFLAGS_MTIM, FSTFLAGS_MTIM_NOW),
                    },
            ),
    {
        let atim = atim_from_fstflags(atim, fst_flags);
        let mtim = mtim_from_fstflags(mtim, fst_flags);
        match self.get_file(fd) {
            Ok(file) => Plan::Finish(HostCall::SetTimes { fd: file.fd, atim, mtim }),
            Err(errno) => Plan::Done(errno),
        }
    }

    /// Returns the attributes of an open file. The attributes come with the
    /// outcome of the requested operation; `filestat_result` translates them.
    pub fn fd_filestat_get(&self, fd: Fd) -> (r: Plan<Errno>)
        ensures
            r == on_file(
                self.table().spec_file_with_error(fd, ERRNO_INVAL),
                |handle: DescriptorHandle| HostCall::Stat { fd: handle },
            ),
    {
        match self.get_file(fd) {
            Ok(file) => Plan::Finish(HostCall::Stat { fd: file.fd }),
            Err(errno) => Plan::Done(errno),
        }
    }

    /// `fd_fdstat_get` before anything is asked of the host: a file asks for
    /// its flags; the error sink can be written and nothing more is known of
    /// it; other streams can do what they have a stream for; an empty input can
    /// be read.
    pub open spec fn spec_fd_fdstat_get(&self, fd: Fd) -> Plan<Result<FdStat, Errno>> {
        match self.table().spec_get(fd) {
            Err(errno) => Plan::Done(Err(errno)),
            Ok(Descriptor::Closed(_)) => Plan::Done(Err(ERRNO_BADF)),
            Ok(Descriptor::Stderr) => Plan::Done(Ok(plain_fdstat(RIGHTS_ALL_BUT_READ))),
            Ok(Descriptor::Streams(streams)) => match streams.type_ {
                StreamType::File(file) => Plan::Finish(HostCall::GetFlags { fd: file.fd }),
                StreamType::EmptyStdin => Plan::Done(Ok(plain_fdstat(RIGHTS_FD_READ))),
                _ => Plan::Done(Ok(plain_fdstat(spec_stream_rights(streams) as u64))),
            },
        }
    }

    /// Gets the attributes of a descriptor.
    pub fn fd_fdstat_get(&self, fd: Fd) -> (r: Plan<Result<FdStat, Errno>>)
        ensures
            r == self.spec_fd_fdstat_get(fd),
    {
        match self.get(fd) {
            Err(errno) => Plan::Done(Err(errno)),
            Ok(Descriptor::Closed(_)) => Plan::Done(Err(ERRNO_BADF)),
            Ok(Descriptor::Stderr) => Plan::Done(
                Ok(
                    FdStat {
                        fs_filetype: FILETYPE_UNKNOWN,
                        fs_flags: 0,
                        fs_rights_base: RIGHTS_ALL_BUT_READ,
                        fs_rights_inheriting: RIGHTS_ALL_BUT_READ,
                    },
                ),
            ),
            Ok(Descriptor::Streams(streams)) => match streams.type_ {
                StreamType::File(file) => Plan::Finish(HostCall::GetFlags { fd: file.fd }),
                StreamType::EmptyStdin => Plan::Done(
                    Ok(
                        FdStat {
                            fs_filetype: FILETYPE_UNKNOWN,
                            fs_flags: 0,
                            fs_rights_base: RIGHTS_FD_READ,
                            fs_rights_inheriting: RIGHTS_FD_READ,
                        },
                    ),
                ),
                _ => {
                    let mut rights: Rights = 0;
                    if streams.input.is_some() {
                        rights = rights + RIGHTS_FD_READ;
                    }
                    if streams.output.is_some() {
                        rights = rights + RIGHTS_FD_WRITE;
                    }
                    Plan::Done(
                        Ok(
                            FdStat {
                                fs_filetype: FILETYPE_UNKNOWN,
                                fs_flags: 0,
                                fs_rights_base: rights,
                                fs_rights_inheriting: rights,
                            },
                        ),
                    )
                },
            },
        }
    }

    /// `fd_fdstat_get` of a file once its flags have arrived: an error ends
    /// the call, flags ask for the file's type.
    pub open spec fn spec_fd_fdstat_flags(
        &self,
        fd: Fd,
        reply: Result<DescriptorFlags, ErrorCode>,
    ) -> Plan<Result<FdStat, Errno>> {
        match reply {
            Err(err) => Plan::Done(Err(spec_errno(err))),
            Ok(_) => match self.table().spec_file_with_error(fd, ERRNO_BADF) {
                Ok(file) => Plan::Finish(HostCall::GetType { fd: file.fd }),
                Err(errno) => Plan::Done(Err(errno)),
            },
        }
    }

    /// Goes on with `fd_fdstat_get` of a file with the flags that the host
    /// reported.
    pub fn fd_fdstat_flags(
        &self,
        fd: Fd,
        reply: Result<DescriptorFlags, ErrorCode>,
    ) -> (r: Plan<Result<FdStat, Errno>>)
        ensures
            r == self.spec_fd_fdstat_flags(fd, reply),
    {
        match reply {
            Err(err) => Plan::Done(Err(errno_from_error_code(err))),
            Ok(_) => match self.get_file_with_error(fd, ERRNO_BADF) {
                Ok(file) => Plan::Finish(HostCall::GetType { fd: file.fd }),
                Err(errno) => Plan::Done(Err(errno)),
            },
        }
    }

    /// `fd_fdstat_get` of a file once its flags and its type have arrived.
    pub open spec fn spec_fd_fdstat_type(
        &self,
        fd: Fd,
        flags: DescriptorFlags,
        reply: Result<DescriptorType, ErrorCode>,
    ) -> Result<FdStat, Errno> {
        match reply {
            Err(err) => Err(spec_errno(err)),
            Ok(type_) => match self.table().spec_file_with_error(fd, ERRNO_BADF) {
                Ok(file) => Ok(spec_file_fdstat(flags, type_, file.append)),
                Err(errno) => Err(errno),
            },
        }
    }

    /// Ends `fd_fdstat_get` of a file with the flags and the type that the
    /// host reported. A socket has no file type code and is not accepted.
    pub fn fd_fdstat_type(
        &self,
        fd: Fd,
        flags: DescriptorFlags,
        reply: Result<DescriptorType, ErrorCode>,
    ) -> (r: Result<FdStat, Errno>)
        requires
            reply != Ok::<DescriptorType, ErrorCode>(DescriptorType::Socket),
        ensures
            r == self.spec_fd_fdstat_type(fd, flags, reply),
    {
        match reply {
            Err(err) => Err(errno_from_error_code(err)),
            Ok(type_) => match self.get_file_with_error(fd, ERRNO_BADF) {
                Ok(file) => Ok(file_fdstat(flags, type_, file.append)),
                Err(errno) => Err(errno),
            },
        }
    }

    /// Returns the current position of a file.
    pub fn fd_tell(&self, fd: Fd) -> (r: Result<Filesize, Errno>)
        ensures
            r == (match self.table().spec_file_with_error(fd, ERRNO_SPIPE) {
                Ok(file) => Ok(file.position),
                Err(errno) => Err(errno),
            }),
    {
        match self.get_seekable_file(fd) {
            Ok(file) => Ok(file.position),
            Err(errno) => Err(errno),
        }
    }
}

/// Translates the attributes that the host reported for `fd_filestat_get` or
/// `path_filestat_get`.
pub fn filestat_result(reply: Result<DescriptorStat, ErrorCode>) -> (r: Result<Filestat, Errno>)
    requires
        reply matches Ok(stat) ==> stat.type_ != DescriptorType::Socket,
    ensures
        r == (match reply {
            Ok(stat) => Ok(Filestat::spec_from_stat(stat)),
            Err(err) => Err(spec_errno(err)),
        }),
{
    match reply {
        Ok(stat) => Ok(Filestat::from_stat(stat)),
        Err(err) => Err(errno_from_error_code(err)),
    }
}

impl State {
    /// Closes a descriptor. The slot becomes the head of the free list and
    /// gives up its handles, which are returned; a listing that the directory
    /// cache keeps for this descriptor is given up with them, since the
    /// listing of a closed descriptor must not go on. Closing succeeds for
    /// every slot of the table, whatever it holds.
    pub fn fd_close(&mut self, fd: Fd) -> (r: (Errno, Released))
        requires
            old(self).wf(),
        ensures
            final(self).wf(),
            final(self).same_lists(old(self)),
            final(self).same_clocks(old(self)),
            final(self).arena() == old(self).arena(),
            final(self).alloc_mode() == old(self).alloc_mode(),
            final(self).table()@.len() == old(self).table()@.len(),
            final(self).cache().for_fd() == old(self).cache().for_fd(),
            final(self).cache().cookie() == old(self).cache().cookie(),
            final(self).cache().entry() == old(self).cache().entry(),
            final(self).cache().stream() == (if old(self).cache().for_fd() == fd {
                None
            } else {
                old(self).cache().stream()
            }),
            r.1.directory_stream == (if old(self).cache().for_fd() == fd {
                old(self).cache().stream()
            } else {
                None
            }),
            fd >= old(self).table()@.len() ==> r.0 == ERRNO_BADF && final(self).same_table(old(self))
                && r.1 == (Released {
                directory_stream: r.1.directory_stream,
                ..spec_nothing_released()
            }),
            fd < old(self).table()@.len() ==> r.0 == ERRNO_SUCCESS && !final(self).table().is_open(
                fd,
            ) && same_except(old(self).table()@, final(self).table()@, fd as int, -1)
                && final(self).table().free_list() == seq![fd] + without(
                old(self).table().free_list(),
                fd,
            ) && r.1 == (Released {
                directory_stream: r.1.directory_stream,
                ..old(self).table()@[fd as int].spec_release()
            }),
    {
        let stream = self.dirent_cache.invalidate(fd);
        match self.descriptors.close(fd) {
            Ok(released) => (
                ERRNO_SUCCESS,
                Released {
                    input: released.input,
                    output: released.output,
                    descriptor: released.descriptor,
                    socket: released.socket,
                    directory_stream: stream,
                },
            ),
            Err(errno) => (
                errno,
                Released {
                    input: None,
                    output: None,
                    descriptor: None,
                    socket: None,
                    directory_stream: stream,
                },
            ),
        }
    }

    /// Atomically replaces a descriptor by renumbering another: what `fd`
    /// referred to is referred to by `to` afterwards, and `fd` is closed. See
    /// `DescriptorTable::renumber` for what happens to the table. A listing
    /// that the directory cache keeps for `to` belonged to what `to` referred
    /// to before, and one that it keeps for `fd` belongs to a descriptor that
    /// is now closed: either is given up and returned with the handles, so that
    /// no later call at either number goes on with it. What else the cache
    /// holds stays as it is.
    pub fn fd_renumber(&mut self, fd: Fd, to: Fd) -> (r: (Errno, Released))
        requires
            old(self).wf(),
        ensures
            final(self).wf(),
            final(self).same_lists(old(self)),
            final(self).same_clocks(old(self)),
            final(self).arena() == old(self).arena(),
            final(self).alloc_mode() == old(self).alloc_mode(),
            final(self).table()@.len() == DescriptorTable::grown_len(
                old(self).table()@.len() as int,
                to,
            ),
            to >= MAX_DESCRIPTORS ==> r.0 == ERRNO_NOMEM,
            to < MAX_DESCRIPTORS && !old(self).table().is_open(fd) ==> r.0 == ERRNO_BADF,
            r.0 != ERRNO_SUCCESS ==> r.1 == spec_nothing_released() && final(self).cache() == old(
                self,
            ).cache() && old(self).table().grown_to(
                final(self).table()@,
                final(self).table().free_list(),
                final(self).table()@.len() as int,
            ),
            to < MAX_DESCRIPTORS && old(self).table().is_open(fd) ==> r.0 == ERRNO_SUCCESS,
            to < MAX_DESCRIPTORS && old(self).table().is_open(fd) && fd == to ==> r.1
                == spec_nothing_released() && final(self).same_table(old(self))
                && final(self).cache() == old(self).cache(),
            to < MAX_DESCRIPTORS && old(self).table().is_open(fd) && fd != to ==> {
                &&& final(self).table()@[to as int] == old(self).table()@[fd as int]
                &&& !final(self).table().is_open(fd)
                &&& same_except(old(self).table()@, final(self).table()@, fd as int, to as int)
                &&& forall|i: int|
                    old(self).table()@.len() <= i < final(self).table()@.len() && i != to ==> !(
                    #[trigger] final(self).table()@[i]).is_open()
                &&& final(self).table().free_list() == seq![fd] + without(
                    grown_free(
                        old(self).table().free_list(),
                        old(self).table()@.len() as int,
                        final(self).table()@.len() as int,
                    ),
                    to,
                )
                &&& final(self).cache().for_fd() == old(self).cache().for_fd()
                &&& final(self).cache().cookie() == old(self).cache().cookie()
                &&& final(self).cache().entry() == old(self).cache().entry()
                &&& final(self).cache().stream() == (if old(self).cache().for_fd() == to || old(
                    self,
                ).cache().for_fd() == fd {
                    None
                } else {
                    old(self).cache().stream()
                })
                &&& r.1 == (Released {
                    directory_stream: if old(self).cache().for_fd() == to || old(
                        self,
                    ).cache().for_fd() == fd {
                        old(self).cache().stream()
                    } else {
                        None
                    },
                    ..(if to < old(self).table()@.len() {
                        old(self).table()@[to as int].spec_release()
                    } else {
                        spec_nothing_released()
                    })
                })
            },
    {
        match self.descriptors.renumber(fd, to) {
            Err(errno) => (errno, nothing_released()),
            Ok(released) => {
                if fd == to {
                    (ERRNO_SUCCESS, released)
                } else {
                    let kept_for_to = self.dirent_cache.invalidate(to);
                    let kept_for_fd = self.dirent_cache.invalidate(fd);
                    let stream = match kept_for_to {
                        Some(stream) => Some(stream),
                        None => kept_for_fd,
                    };
                    (
                        ERRNO_SUCCESS,
                        Released {
                            input: released.input,
                            output: released.output,
                            descriptor: released.descriptor,
                            socket: released.socket,
                            directory_stream: stream,
                        },
                    )
                }
            },
        }
    }

    /// `fd_seek` before anything is asked of the host. Only a file can seek.
    /// A seek from the start or from the current position is done at once; a
    /// seek from the end first asks for the size of the file.
    pub open spec fn spec_fd_seek(
        &self,
        fd: Fd,
        offset: Filedelta,
        whence: Whence,
    ) -> Plan<Result<(Filesize, Released), Errno>> {
        match self.table().spec_stream_with_error(fd, ERRNO_SPIPE) {
            Err(errno) => Plan::Done(Err(errno)),
            Ok(streams) => match streams.type_ {
                StreamType::File(file) => if whence == WHENCE_END {
                    Plan::Finish(HostCall::Stat { fd: file.fd })
                } else {
                    match spec_seek_target(whence, file.position, 0, offset) {
                        Some(target) => Plan::Done(Ok((target, spec_dropped_streams(streams)))),
                        None => Plan::Done(Err(ERRNO_INVAL)),
                    }
                },
                _ => Plan::Done(Err(ERRNO_SPIPE)),
            },
        }
    }

    /// The table after a seek in slot `fd` to `target`.
    pub open spec fn spec_table_sought(&self, fd: Fd, target: Filesize) -> Seq<Descriptor> {
        match self.table().spec_file_with_error(fd, ERRNO_SPIPE) {
            Ok(file) => self.table()@.update(
                fd as int,
                Descriptor::Streams(spec_sought(self.table()@[fd as int]->Streams_0, file, target)),
            ),
            Err(_) => self.table()@,
        }
    }

    fn seek_to(&mut self, fd: Fd, streams: Streams, file: File, target: Filesize) -> (r: Released)
        requires
            old(self).wf(),
            old(self).table().spec_get(fd) == Ok::<Descriptor, Errno>(Descriptor::Streams(streams)),
            streams.type_ == StreamType::File(file),
        ensures
            final(self).wf(),
            final(self).same_but_table(old(self)),
            final(self).table()@ == old(self).spec_table_sought(fd, target),
            final(self).table().free_list() == old(self).table().free_list(),
            r == spec_dropped_streams(streams),
    {
        let sought = Streams {
            input: None,
            output: None,
            type_: StreamType::File(File { fd: file.fd, position: target, append: file.append }),
        };
        self.descriptors.set_streams(fd, sought);
        Released {
            input: streams.input,
            output: streams.output,
            descriptor: None,
            socket: None,
            directory_stream: None,
        }
    }

    /// Moves the position of a file. The new position is returned with the
    /// streams that the descriptor gives up: they were bound to the old
    /// position.
    pub fn fd_seek(
        &mut self,
        fd: Fd,
        offset: Filedelta,
        whence: Whence,
    ) -> (r: Plan<Result<(Filesize, Released), Errno>>)
        requires
            old(self).wf(),
        ensures
            final(self).wf(),
            final(self).same_but_table(old(self)),
            final(self).table().free_list() == old(self).table().free_list(),
            r == old(self).spec_fd_seek(fd, offset, whence),
            final(self).table()@ == (match r {
                Plan::Done(Ok((target, _))) => old(self).spec_table_sought(fd, target),
                _ => old(self).table()@,
            }),
    {
        match self.get_seekable_stream(fd) {
            Err(errno) => Plan::Done(Err(errno)),
            Ok(streams) => match streams.type_ {
                StreamType::File(file) => {
                    if whence == WHENCE_END {
                        Plan::Finish(HostCall::Stat { fd: file.fd })
                    } else if whence == WHENCE_SET {
                        let target: Filesize = (0u64).wrapping_add_signed(offset);
                        let released = self.seek_to(fd, streams, file, target);
                        Plan::Done(Ok((target, released)))
                    } else if whence == WHENCE_CUR {
                        let target: Filesize = file.position.wrapping_add_signed(offset);
                        let released = self.seek_to(fd, streams, file, target);
                        Plan::Done(Ok((target, released)))
                    } else {
                        Plan::Done(Err(ERRNO_INVAL))
                    }
                },
                _ => Plan::Done(Err(ERRNO_SPIPE)),
            },
        }
    }

    /// `fd_seek` from the end of the file once the attributes of the file
    /// have arrived.
    pub open spec fn spec_fd_seek_end(
        &self,
        fd: Fd,
        offset: Filedelta,
        reply: Result<DescriptorStat, ErrorCode>,
    ) -> Result<(Filesize, Released), Errno> {
        match self.table().spec_stream_with_error(fd, ERRNO_SPIPE) {
            Err(errno) => Err(errno),
            Ok(streams) => match streams.type_ {
                StreamType::File(file) => match reply {
                    Err(err) => Err(spec_errno(err)),
                    Ok(stat) => Ok((wrap64(stat.size + offset), spec_dropped_streams(streams))),
                },
                _ => Err(ERRNO_SPIPE),
            },
        }
    }

    /// Ends a seek from the end of the file with the attributes that the host
    /// reported.
    pub fn fd_seek_end(
        &mut self,
        fd: Fd,
        offset: Filedelta,
        reply: Result<DescriptorStat, ErrorCode>,
    ) -> (r: Result<(Filesize, Released), Errno>)
        requires
            old(self).wf(),
        ensures
            final(self).wf(),
            final(self).same_but_table(old(self)),
            final(self).table().free_list() == old(self).table().free_list(),
            r == old(self).spec_fd_seek_end(fd, offset, reply),
            final(self).table()@ == (match r {
                Ok((target, _)) => old(self).spec_table_sought(fd, target),
                _ => old(self).table()@,
            }),
    {
        match self.get_seekable_stream(fd) {
            Err(errno) => Err(errno),
            Ok(streams) => match streams.type_ {
                StreamType::File(file) => match reply {
                    Err(err) => Err(errno_from_error_code(err)),
                    Ok(stat) => {
                        let target: Filesize = stat.size.wrapping_add_signed(offset);
                        let released = self.seek_to(fd, streams, file, target);
                        Ok((target, released))
                    },
                },
                _ => Err(ERRNO_SPIPE),
            },
        }
    }
}

/// Translates the outcome of a read at an offset: the number of bytes read,
/// an interruption where nothing was read before the end, or the error.
pub fn read_result(reply: Result<(Size, bool), ErrorCode>) -> (r: Result<Size, Errno>)
    ensures
        r == (match reply {
            Ok((len, end)) => spec_read_result(len, end),
            Err(err) => Err(spec_errno(err)),
        }),
{
    match reply {
        Ok((len, end)) => {
            if !end && len == 0 {
                Err(ERRNO_INTR)
            } else {
                Ok(len)
            }
        },
        Err(err) => Err(errno_from_error_code(err)),
    }
}

/// Translates the outcome of a write at an offset: the number of bytes
/// written, or the error.
pub fn write_result(reply: Result<u32, ErrorCode>) -> (r: Result<Size, Errno>)
    ensures
        r == (match reply {
            Ok(len) => Ok(len as usize),
            Err(err) => Err(spec_errno(err)),
        }),
{
    match reply {
        Ok(len) => Ok(len as usize),
        Err(err) => Err(errno_from_error_code(err)),
    }
}

impl State {
    /// `fd_pread` into the buffer `iov`: the file in slot `fd` is read at
    /// `offset`, for as many bytes as the buffer holds.
    pub open spec fn spec_fd_pread(
        &self,
        fd: Fd,
        iov: Iovec,
        offset: Filesize,
    ) -> Plan<Result<Size, Errno>> {
        match self.table().spec_file_with_error(fd, ERRNO_INVAL) {
            Ok(file) => Plan::Finish(
                HostCall::Read {
                    fd: file.fd,
                    len: iov.buf_len as u64,
                    offset,
                    into: ResultBuffer::Caller { ptr: iov.buf, len: iov.buf_len },
                },
            ),
            Err(errno) => Plan::Done(Err(errno)),
        }
    }

    /// Reads from a file at an offset, without using or moving its position.
    /// The read goes to the first buffer that is not empty; without one,
    /// nothing is read and the call succeeds.
    pub fn fd_pread(
        &self,
        fd: Fd,
        iovs: &Vec<Iovec>,
        offset: Filesize,
    ) -> (r: Plan<Result<Size, Errno>>)
        ensures
            all_empty(iovs@) ==> r == Plan::Done(Ok::<Size, Errno>(0)),
            forall|i: int|
                is_first_nonempty(iovs@, i) ==> r == self.spec_fd_pread(fd, iovs@[i], offset),
    {
        match first_nonempty(iovs) {
            None => Plan::Done(Ok(0)),
            Some(i) => {
                let iov = iovs[i];
                match self.get_file(fd) {
                    Ok(file) => Plan::Finish(
                        HostCall::Read {
                            fd: file.fd,
                            len: iov.buf_len as u64,
                            offset,
                            into: ResultBuffer::Caller { ptr: iov.buf, len: iov.buf_len },
                        },
                    ),
                    Err(errno) => Plan::Done(Err(errno)),
                }
            },
        }
    }

    /// `fd_pwrite` from the buffer `iov`: the bytes of the buffer are written
    /// to the file in slot `fd` at `offset`.
    pub open spec fn spec_fd_pwrite(
        &self,
        fd: Fd,
        iov: Iovec,
        offset: Filesize,
    ) -> Plan<Result<Size, Errno>> {
        match self.table().spec_file_with_error(fd, ERRNO_SPIPE) {
            Ok(file) => Plan::Finish(
                HostCall::Write { fd: file.fd, offset, buf: iov.buf, buf_len: iov.buf_len },
            ),
            Err(errno) => Plan::Done(Err(errno)),
        }
    }

    /// Writes to a file at an offset, without using or moving its position.
    /// The first buffer that is not empty is written; without one, nothing is
    /// written and the call succeeds.
    pub fn fd_pwrite(
        &self,
        fd: Fd,
        iovs: &Vec<Iovec>,
        offset: Filesize,
    ) -> (r: Plan<Result<Size, Errno>>)
        ensures
            all_empty(iovs@) ==> r == Plan::Done(Ok::<Size, Errno>(0)),
            forall|i: int|
                is_first_nonempty(iovs@, i) ==> r == self.spec_fd_pwrite(fd, iovs@[i], offset),
    {
        match first_nonempty(iovs) {
            None => Plan::Done(Ok(0)),
            Some(i) => {
                let iov = iovs[i];
                match self.get_seekable_file(fd) {
                    Ok(file) => Plan::Finish(
                        HostCall::Write { fd: file.fd, offset, buf: iov.buf, buf_len: iov.buf_len },
                    ),
                    Err(errno) => Plan::Done(Err(errno)),
                }
            },
        }
    }

    /// `fd_read` into the buffer `iov`. Streams are read through their input
    /// stream, which a file creates at its current position when it has none;
    /// nothing else can be read.
    pub open spec fn spec_fd_read(&self, fd: Fd, iov: Iovec) -> Plan<Result<Size, Errno>> {
        match self.table().spec_read_stream(fd) {
            Ok(Source::Ready(stream)) => Plan::Finish(
                HostCall::StreamRead {
                    stream,
                    len: iov.buf_len as u64,
                    into: ResultBuffer::Caller { ptr: iov.buf, len: iov.buf_len },
                },
            ),
            Ok(Source::Create(call)) => Plan::Fetch(call),
            Err(errno) => Plan::Done(Err(errno)),
        }
    }

    /// Reads from a descriptor. The read goes to the first buffer that is not
    /// empty; without one, nothing is read and the call succeeds. Where the
    /// input stream has to be created first, the new stream is to be recorded
    /// with `set_read_stream`.
    pub fn fd_read(&self, fd: Fd, iovs: &Vec<Iovec>) -> (r: Plan<Result<Size, Errno>>)
        ensures
            all_empty(iovs@) ==> r == Plan::Done(Ok::<Size, Errno>(0)),
            forall|i: int| is_first_nonempty(iovs@, i) ==> r == self.spec_fd_read(fd, iovs@[i]),
    {
        match first_nonempty(iovs) {
            None => Plan::Done(Ok(0)),
            Some(i) => {
                let iov = iovs[i];
                match self.get_read_stream(fd) {
                    Ok(Source::Ready(stream)) => Plan::Finish(
                        HostCall::StreamRead {
                            stream,
                            len: iov.buf_len as u64,
                            into: ResultBuffer::Caller { ptr: iov.buf, len: iov.buf_len },
                        },
                    ),
                    Ok(Source::Create(call)) => Plan::Fetch(call),
                    Err(errno) => Plan::Done(Err(errno)),
                }
            },
        }
    }

    fn move_position(&mut self, fd: Fd, len: u64, write: bool)
        requires
            old(self).wf(),
        ensures
            final(self).wf(),
            final(self).same_but_table(old(self)),
            final(self).table()@ == spec_moved(old(self).table()@, fd, len, write),
            final(self).table().free_list() == old(self).table().free_list(),
    {
        match self.descriptors.get(fd) {
            Ok(Descriptor::Streams(streams)) => match streams.type_ {
                StreamType::File(file) => {
                    if !(write && file.append) {
                        let moved = Streams {
                            input: streams.input,
                            output: streams.output,
                            type_: StreamType::File(
                                File {
                                    fd: file.fd,
                                    position: file.position.wrapping_add(len),
                                    append: file.append,
                                },
                            ),
                        };
                        self.descriptors.set_streams(fd, moved);
                    }
                },
                _ => {},
            },
            _ => {},
        }
    }

    /// The result of `fd_read` once the stream has answered: a failed read is
    /// an I/O error; otherwise the number of bytes read, or an interruption
    /// where nothing was read before the end of the stream.
    pub open spec fn spec_fd_read_finish(
        &self,
        fd: Fd,
        reply: Result<(Size, bool), ()>,
    ) -> Result<Size, Errno> {
        match self.table().spec_get(fd) {
            Ok(Descriptor::Streams(_)) => match reply {
                Err(_) => Err(ERRNO_IO),
                Ok((len, end)) => spec_read_result(len, end),
            },
            _ => Err(ERRNO_BADF),
        }
    }

    /// Ends `fd_read` with the outcome of the read. The position of a file
    /// advances by the number of bytes read.
    pub fn fd_read_finish(
        &mut self,
        fd: Fd,
        reply: Result<(Size, bool), ()>,
    ) -> (r: Result<Size, Errno>)
        requires
            old(self).wf(),
        ensures
            final(self).wf(),
            final(self).same_but_table(old(self)),
            final(self).table().free_list() == old(self).table().free_list(),
            r == old(self).spec_fd_read_finish(fd, reply),
            final(self).table()@ == (match reply {
                Ok((len, _)) => spec_moved(old(self).table()@, fd, len as u64, false),
                Err(_) => old(self).table()@,
            }),
    {
        match self.descriptors.get(fd) {
            Ok(Descriptor::Streams(_)) => match reply {
                Err(_) => Err(ERRNO_IO),
                Ok((len, end)) => {
                    self.move_position(fd, len as u64, false);
                    if !end && len == 0 {
                        Err(ERRNO_INTR)
                    } else {
                        Ok(len)
                    }
                },
            },
            _ => {
                proof {
                    if reply is Ok {
                        assert(spec_moved(old(self).table()@, fd, (reply->Ok_0).0 as u64, false)
                            == old(self).table()@);
                    }
                }
                Err(ERRNO_BADF)
            },
        }
    }

    /// `fd_write` from the buffer `iov`. Streams are written through their
    /// output stream, which a file creates when it has none: one that appends
    /// in append mode, one that writes from the current position otherwise.
    /// The error sink takes the bytes as they are. Nothing else can be written.
    pub open spec fn spec_fd_write(&self, fd: Fd, iov: Iovec) -> Plan<Result<Size, Errno>> {
        match self.table().spec_get(fd) {
            Ok(Descriptor::Streams(streams)) => match streams.spec_write_stream() {
                Ok(Source::Ready(stream)) => Plan::Finish(
                    HostCall::StreamWrite { stream, buf: iov.buf, buf_len: iov.buf_len },
                ),
                Ok(Source::Create(call)) => Plan::Fetch(call),
                Err(errno) => Plan::Done(Err(errno)),
            },
            Ok(Descriptor::Stderr) => Plan::Finish(
                HostCall::PrintStderr { buf: iov.buf, buf_len: iov.buf_len },
            ),
            Ok(Descriptor::Closed(_)) => Plan::Done(Err(ERRNO_BADF)),
            Err(errno) => Plan::Done(Err(errno)),
        }
    }

    /// Writes to a descriptor. While the process state cannot be used, the
    /// write fails with an I/O error. The first buffer that is not empty is
    /// written; without one, nothing is written and the call succeeds. Where
    /// the output stream has to be created first, the new stream is to be
    /// recorded with `set_write_stream`.
    pub fn fd_write(
        &self,
        allocation: AllocationState,
        fd: Fd,
        iovs: &Vec<Iovec>,
    ) -> (r: Plan<Result<Size, Errno>>)
        ensures
            !spec_state_available(allocation) ==> r == Plan::Done(Err::<Size, Errno>(ERRNO_IO)),
            spec_state_available(allocation) && all_empty(iovs@) ==> r == Plan::Done(
                Ok::<Size, Errno>(0),
            ),
            forall|i: int|
                spec_state_available(allocation) && is_first_nonempty(iovs@, i) ==> r
                    == self.spec_fd_write(fd, iovs@[i]),
    {
        if !state_available(allocation) {
            return Plan::Done(Err(ERRNO_IO));
        }
        match first_nonempty(iovs) {
            None => Plan::Done(Ok(0)),
            Some(i) => {
                let iov = iovs[i];
                match self.get(fd) {
                    Ok(Descriptor::Streams(streams)) => match streams.get_write_stream() {
                        Ok(Source::Ready(stream)) => Plan::Finish(
                            HostCall::StreamWrite { stream, buf: iov.buf, buf_len: iov.buf_len },
                        ),
                        Ok(Source::Create(call)) => Plan::Fetch(call),
                        Err(errno) => Plan::Done(Err(errno)),
                    },
                    Ok(Descriptor::Stderr) => Plan::Finish(print(iov.buf, iov.buf_len)),
                    Ok(Descriptor::Closed(_)) => Plan::Done(Err(ERRNO_BADF)),
                    Err(errno) => Plan::Done(Err(errno)),
                }
            },
        }
    }

    /// The result of `fd_write` of a buffer of `len` bytes once the bytes are
    /// out: a failed write to a stream is an I/O error; a stream reports the
    /// number of bytes it took; the error sink takes all of them.
    pub open spec fn spec_fd_write_finish(
        &self,
        fd: Fd,
        len: Size,
        reply: Result<u32, ()>,
    ) -> Result<Size, Errno> {
        match self.table().spec_get(fd) {
            Ok(Descriptor::Streams(_)) => match reply {
                Err(_) => Err(ERRNO_IO),
                Ok(written) => Ok(written as usize),
            },
            Ok(Descriptor::Stderr) => Ok(len),
            _ => Err(ERRNO_BADF),
        }
    }

    /// Ends `fd_write` with the outcome of the write. The position of a file
    /// advances by the number of bytes written, unless the file is in append
    /// mode.
    pub fn fd_write_finish(
        &mut self,
        fd: Fd,
        len: Size,
        reply: Result<u32, ()>,
    ) -> (r: Result<Size, Errno>)
        requires
            old(self).wf(),
        ensures
            final(self).wf(),
            final(self).same_but_table(old(self)),
            final(self).table().free_list() == old(self).table().free_list(),
            r == old(self).spec_fd_write_finish(fd, len, reply),
            final(self).table()@ == (match reply {
                Ok(written) => spec_moved(old(self).table()@, fd, written as u64, true),
                Err(_) => old(self).table()@,
            }),
    {
        match self.descriptors.get(fd) {
            Ok(Descriptor::Streams(_)) => match reply {
                Err(_) => Err(ERRNO_IO),
                Ok(written) => {
                    self.move_position(fd, written as u64, true);
                    Ok(written as usize)
                },
            },
            Ok(Descriptor::Stderr) => Ok(len),
            _ => Err(ERRNO_BADF),
        }
    }

    /// Adjusts the flags of a descriptor: the four synchronisation and
    /// blocking flags go to the file. The append flag is the adapter's own and
    /// is recorded by `fd_fdstat_set_flags_finish`.
    pub fn fd_fdstat_set_flags(&self, fd: Fd, flags: Fdflags) -> (r: Plan<Errno>)
        ensures
            r == (match self.table().spec_file_with_error(fd, ERRNO_INVAL) {
                Ok(file) => Plan::Finish(
                    HostCall::SetFlags {
                        fd: file.fd,
                        flags: DescriptorFlags {
                            read: false,
                            write: false,
                            non_blocking: has16(flags, FDFLAGS_NONBLOCK),
                            file_integrity_sync: has16(flags, FDFLAGS_SYNC),
                            data_integrity_sync: has16(flags, FDFLAGS_DSYNC),
                            requested_write_sync: has16(flags, FDFLAGS_RSYNC),
                        },
                    },
                ),
                Err(errno) => Plan::Done(errno),
            }),
    {
        let new_flags = descriptor_flags_from_fdflags(flags);
        match self.get_file(fd) {
            Ok(file) => Plan::Finish(HostCall::SetFlags { fd: file.fd, flags: new_flags }),
            Err(errno) => Plan::Done(errno),
        }
    }

    /// The streams of a file once its append mode is `append`: where the mode
    /// changes, the output stream is no longer recorded, since it was bound to
    /// the old mode.
    pub open spec fn spec_append_set(streams: Streams, file: File, append: bool) -> Streams {
        Streams {
            input: streams.input,
            output: if append == file.append {
                streams.output
            } else {
                None
            },
            type_: StreamType::File(File { append, ..file }),
        }
    }

    /// Ends `fd_fdstat_set_flags`: once the file has taken its flags, the
    /// append flag becomes the append mode of the descriptor. Returns the
    /// result of the call with the output stream that the descriptor gives up
    /// where its mode has changed.
    pub fn fd_fdstat_set_flags_finish(
        &mut self,
        fd: Fd,
        flags: Fdflags,
        reply: Result<(), ErrorCode>,
    ) -> (r: (Errno, Released))
        requires
            old(self).wf(),
        ensures
            final(self).wf(),
            final(self).same_but_table(old(self)),
            final(self).table().free_list() == old(self).table().free_list(),
            r.0 == spec_errno_of_reply(reply),
            match (reply, old(self).table().spec_file_with_error(fd, ERRNO_INVAL)) {
                (Ok(_), Ok(file)) => {
                    let streams = old(self).table()@[fd as int]->Streams_0;
                    let append = has16(flags, FDFLAGS_APPEND);
                    &&& final(self).table()@ == old(self).table()@.update(
                        fd as int,
                        Descriptor::Streams(Self::spec_append_set(streams, file, append)),
                    )
                    &&& r.1 == (Released {
                        output: if append == file.append {
                            None
                        } else {
                            streams.output
                        },
                        ..spec_nothing_released()
                    })
                },
                _ => final(self).table()@ == old(self).table()@ && r.1 == spec_nothing_released(),
            },
    {
        match reply {
            Err(err) => (errno_from_error_code(err), nothing_released()),
            Ok(_) => {
                match self.descriptors.get(fd) {
                    Ok(Descriptor::Streams(streams)) => match streams.type_ {
                        StreamType::File(file) => {
                            let append: bool = flags & FDFLAGS_APPEND == FDFLAGS_APPEND;
                            let changed: bool = append != file.append;
                            let set = Streams {
                                input: streams.input,
                                output: if changed {
                                    None
                                } else {
                                    streams.output
                                },
                                type_: StreamType::File(
                                    File { fd: file.fd, position: file.position, append },
                                ),
                            };
                            self.descriptors.set_streams(fd, set);
                            (
                                ERRNO_SUCCESS,
                                Released {
                                    input: None,
                                    output: if changed {
                                        streams.output
                                    } else {
                                        None
                                    },
                                    descriptor: None,
                                    socket: None,
                                    directory_stream: None,
                                },
                            )
                        },
                        _ => (ERRNO_SUCCESS, nothing_released()),
                    },
                    _ => (ERRNO_SUCCESS, nothing_released()),
                }
            },
        }
    }
}

impl State {
    /// Describes a preopened descriptor: a directory, with the length of its
    /// path. While the process state cannot be used, no descriptor is
    /// preopened. Where the preopened directories are not known yet, they are
    /// to be recorded with `set_preopens` first.
    pub fn fd_prestat_get(
        &self,
        allocation: AllocationState,
        fd: Fd,
    ) -> (r: Plan<Result<Prestat, Errno>>)
        ensures
            r == (if !spec_state_available(allocation) {
                Plan::Done(Err(ERRNO_BADF))
            } else if self.env_preopens() is None {
                Plan::Fetch(HostCall::GetPreopens { into: ResultBuffer::Arena })
            } else {
                match self.spec_preopen(fd) {
                    Some(preopen) => Plan::Done(
                        Ok(Prestat { tag: PREOPENTYPE_DIR, pr_name_len: preopen.1.len() as usize }),
                    ),
                    None => Plan::Done(Err(ERRNO_BADF)),
                }
            }),
    {
        if !state_available(allocation) {
            return Plan::Done(Err(ERRNO_BADF));
        }
        match self.preopens_request() {
            Some(call) => Plan::Fetch(call),
            None => match self.get_preopen(fd) {
                Some(preopen) => Plan::Done(
                    Ok(Prestat { tag: PREOPENTYPE_DIR, pr_name_len: preopen.get_path().len() }),
                ),
                None => Plan::Done(Err(ERRNO_BADF)),
            },
        }
    }

    /// Returns the path of a preopened descriptor for a buffer of `path_len`
    /// bytes. A descriptor that is not preopened is not a directory. A path
    /// that is shorter than the buffer is reported as too long; of any other
    /// path the bytes that the buffer holds are returned. Where the preopened
    /// directories are not known yet, they are to be recorded with
    /// `set_preopens` first.
    pub fn fd_prestat_dir_name(&self, fd: Fd, path_len: Size) -> (r: Plan<Result<Vec<u8>, Errno>>)
        ensures
            self.env_preopens() is None ==> (r matches Plan::Fetch(call) && call == (
            HostCall::GetPreopens { into: ResultBuffer::Arena })),
            self.env_preopens() is Some ==> (match self.spec_preopen(fd) {
                Some(preopen) => if preopen.1.len() < path_len {
                    (r matches Plan::Done(Err(errno)) && errno == ERRNO_NAMETOOLONG)
                } else {
                    (r matches Plan::Done(Ok(path)) && path@ == preopen.1.take(path_len as int))
                },
                None => (r matches Plan::Done(Err(errno)) && errno == ERRNO_NOTDIR),
            }),
    {
        match self.preopens_request() {
            Some(call) => Plan::Fetch(call),
            None => match self.get_preopen(fd) {
                Some(preopen) => {
                    if preopen.get_path().len() < path_len {
                        Plan::Done(Err(ERRNO_NAMETOOLONG))
                    } else {
                        let mut path: Vec<u8> = Vec::new();
                        push_prefix(&mut path, preopen.get_path().as_bytes(), path_len);
                        assert(path@ =~= preopen.path().take(path_len as int));
                        Plan::Done(Ok(path))
                    }
                },
                None => Plan::Done(Err(ERRNO_NOTDIR)),
            },
        }
    }

    /// Starts reading directory entries into a buffer of `buf_len` bytes, from
    /// the entry at `cookie` on. The directory cache gives up the listing it
    /// keeps: the call goes on with it where it was kept for this descriptor
    /// and cookie; otherwise it is returned to be handed back, and the call
    /// opens a new listing.
    pub fn fd_readdir(&mut self, fd: Fd, buf_len: Size, cookie: Dircookie) -> (r: (
        Readdir,
        Option<DirectoryEntryStream>,
    ))
        requires
            old(self).wf(),
        ensures
            final(self).wf(),
            final(self).same_table(old(self)),
            final(self).same_lists(old(self)),
            final(self).same_clocks(old(self)),
            final(self).arena() == old(self).arena(),
            final(self).alloc_mode() == old(self).alloc_mode(),
            final(self).cache().stream() is None,
            final(self).cache().for_fd() == old(self).cache().for_fd(),
            final(self).cache().cookie() == old(self).cache().cookie(),
            final(self).cache().entry() == old(self).cache().entry(),
            r.0.wf(),
            r.0@ == spec_begin(
                fd,
                cookie,
                buf_len as nat,
                match old(self).table().spec_file_with_error(fd, ERRNO_NOTDIR) {
                    Ok(file) => Ok(file.fd),
                    Err(errno) => Err(errno),
                },
                if old(self).cache().hits(fd, cookie) {
                    old(self).cache().stream()
                } else {
                    None
                },
                old(self).cache().entry(),
            ),
            r.1 == (if old(self).cache().hits(fd, cookie) {
                None
            } else {
                old(self).cache().stream()
            }),
    {
        let (stream, hit, kept) = self.dirent_cache.take_for(fd, cookie);
        let dir: Result<DescriptorHandle, Errno> = match self.descriptors.get_dir(fd) {
            Ok(file) => Ok(file.fd),
            Err(errno) => Err(errno),
        };
        if hit {
            (Readdir::begin(fd, cookie, buf_len, dir, stream, kept), None)
        } else {
            (Readdir::begin(fd, cookie, buf_len, dir, None, kept), stream)
        }
    }

    /// Ends reading a directory. Where the buffer is full and the last entry
    /// fits the directory cache, the cache keeps the open listing for a call
    /// that goes on at the cookie of that entry; otherwise the listing is
    /// returned to be handed back.
    pub fn fd_readdir_finish(&mut self, call: Readdir) -> (r: ReaddirOutcome)
        requires
            old(self).wf(),
            call.wf(),
            call@.request is None,
        ensures
            final(self).wf(),
            final(self).same_table(old(self)),
            final(self).same_lists(old(self)),
            final(self).same_clocks(old(self)),
            final(self).arena() == old(self).arena(),
            final(self).alloc_mode() == old(self).alloc_mode(),
            r.errno == call@.errno,
            r.bytes@ == clipped(wire_all(call@.window), call@.buf_len),
            r.bytes@.len() <= call@.buf_len,
            if call@.errno == ERRNO_SUCCESS && call@.stream is Some && call@.keep is Some {
                &&& r.release is None
                &&& final(self).cache().stream() == call@.stream
                &&& final(self).cache().for_fd() == call@.fd
                &&& final(self).cache().cookie() == (call@.keep->0).1
                &&& final(self).cache().entry() == (call@.keep->0).0
            } else {
                &&& r.release == call@.stream
                &&& final(self).cache() == old(self).cache()
            },
    {
        let fd = call.descriptor();
        let stream = call.listing();
        let (outcome, keep) = call.finish();
        match (keep, stream) {
            (Some((entry, cookie)), Some(stream)) => {
                self.dirent_cache.store(stream, fd, cookie, entry);
            },
            _ => {},
        }
        outcome
    }
}

} // verus!
