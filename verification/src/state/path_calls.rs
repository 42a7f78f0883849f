//! The calls of the flat interface that work on a path below a directory.

use vstd::prelude::*;
use crate::arena::{
    MAX_DESCRIPTORS, PATH_MAX,
};
use crate::bytes::push_prefix;
use crate::capability::{
    DescriptorFlags, DescriptorHandle, ErrorCode, HostCall, Modes, OpenFlags, PathFlags, Plan,
    ResultBuffer,
};
use crate::descriptor::{
    Descriptor, File, Released, Streams, nothing_released, spec_nothing_released,
};
use crate::flat::{
    ERRNO_NOMEM, ERRNO_NOTDIR, Errno, FDFLAGS_APPEND, FDFLAGS_DSYNC, FDFLAGS_NONBLOCK,
    FDFLAGS_RSYNC, FDFLAGS_SYNC, FSTFLAGS_ATIM, FSTFLAGS_ATIM_NOW, FSTFLAGS_MTIM,
    FSTFLAGS_MTIM_NOW, Fd, Fdflags, Fstflags, LOOKUPFLAGS_SYMLINK_FOLLOW, Lookupflags,
    OFLAGS_CREAT, OFLAGS_DIRECTORY, OFLAGS_EXCL, OFLAGS_TRUNC, Oflags, RIGHTS_FD_READ,
    RIGHTS_FD_WRITE, Rights, Size, Timestamp,
};
use crate::state::State;
use crate::table::{
    head_of, without,
};
use crate::translate::{
    at_flags_from_lookupflags, atim_from_fstflags, descriptor_flags_from_flags,
    errno_from_error_code, has16, has32, has64, mtim_from_fstflags, o_flags_from_oflags,
    spec_errno, spec_new_timestamp,
};

verus! {

/// The request of a call that needs the directory in slot `fd`: the lookup
/// error, or the operation on the directory's handle.
pub open spec fn on_dir(
    dir: Result<File, Errno>,
    call: spec_fn(DescriptorHandle) -> HostCall,
) -> Plan<Errno> {
    match dir {
        Ok(dir) => Plan::Finish(call(dir.fd)),
        Err(errno) => Plan::Done(errno),
    }
}

/// The request of a call that needs the directories in two slots: the first
/// lookup error, or the operation on the two handles.
pub open spec fn on_dirs(
    old_dir: Result<File, Errno>,
    new_dir: Result<File, Errno>,
    call: spec_fn(DescriptorHandle, DescriptorHandle) -> HostCall,
) -> Plan<Errno> {
    match old_dir {
        Err(errno) => Plan::Done(errno),
        Ok(old_dir) => match new_dir {
            Err(errno) => Plan::Done(errno),
            Ok(new_dir) => Plan::Finish(call(old_dir.fd, new_dir.fd)),
        },
    }
}

/// The mode of a file that `path_open` creates: readable and writeable.
pub open spec fn spec_open_mode() -> Modes {
    Modes { readable: true, writeable: true, executable: false }
}

/// Where the target of a symbolic link is written: to the guest's buffer
/// where it holds any path, to the path scratch buffer otherwise.
pub open spec fn spec_readlink_buffer(buf: usize, buf_len: Size) -> ResultBuffer {
    if buf_len < PATH_MAX {
        ResultBuffer::PathScratch
    } else {
        ResultBuffer::Caller { ptr: buf, len: buf_len }
    }
}

/// What `path_readlink` hands to the guest of a target of `len` bytes: the
/// length of the target, and as many of its bytes as the buffer holds.
pub open spec fn spec_readlink_copied(len: nat, buf_len: Size) -> nat {
    if len < buf_len {
        len
    } else {
        buf_len as nat
    }
}

/// Ends `path_readlink` with the outcome that the host reported. Returns the
/// length of the target of the link, which the call reports as used, and the
/// bytes for the guest's buffer: the target, cut at the size of the buffer.
pub fn path_readlink_finish(
    buf_len: Size,
    reply: Result<Vec<u8>, ErrorCode>,
) -> (r: Result<(Size, Vec<u8>), Errno>)
    ensures
        match reply {
            Err(err) => (r matches Err(errno) && errno == spec_errno(err)),
            Ok(path) => (r matches Ok((used, bytes)) && used == path@.len() && bytes@
                == path@.take(spec_readlink_copied(path@.len(), buf_len) as int)),
        },
{
    match reply {
        Err(err) => Err(errno_from_error_code(err)),
        Ok(path) => {
            let used: Size = path.len();
            let len: usize = if used < buf_len {
                used
            } else {
                buf_len
            };
            let mut bytes: Vec<u8> = Vec::new();
            push_prefix(&mut bytes, &path, len);
            assert(bytes@ =~= path@.take(len as int));
            Ok((used, bytes))
        },
    }
}

impl State {
    /// Creates a directory.
    pub fn path_create_directory(&self, fd: Fd) -> (r: Plan<Errno>)
        ensures
            r == on_dir(
                self.table().spec_file_with_error(fd, ERRNO_NOTDIR),
                |dir: DescriptorHandle| HostCall::CreateDirectoryAt { fd: dir },
            ),
    {
        match self.get_dir(fd) {
            Ok(dir) => Plan::Finish(HostCall::CreateDirectoryAt { fd: dir.fd }),
            Err(errno) => Plan::Done(errno),
        }
    }

    /// Returns the attributes of a file or directory. The attributes come
    /// with the outcome of the requested operation; `filestat_result`
    /// translates them.
    pub fn path_filestat_get(&self, fd: Fd, flags: Lookupflags) -> (r: Plan<Errno>)
        ensures
            r == on_dir(
                self.table().spec_file_with_error(fd, ERRNO_NOTDIR),
                |dir: DescriptorHandle|
                    HostCall::StatAt {
                        fd: dir,
                        at_flags: PathFlags {
                            symlink_follow: has32(flags, LOOKUPFLAGS_SYMLINK_FOLLOW),
                        },
                    },
            ),
    {
        let at_flags = at_flags_from_lookupflags(flags);
        match self.get_dir(fd) {
            Ok(dir) => Plan::Finish(HostCall::StatAt { fd: dir.fd, at_flags }),
            Err(errno) => Plan::Done(errno),
        }
    }

    /// Adjusts the timestamps of a file or directory. The flags say for each
    /// of the two timestamps whether it is set to the given time, to the
    /// current time, or left as it is.
    pub fn path_filestat_set_times(
        &self,
        fd: Fd,
        flags: Lookupflags,
        atim: Timestamp,
        mtim: Timestamp,
        fst_flags: Fstflags,
    ) -> (r: Plan<Errno>)
        ensures
            r == on_dir(
                self.table().spec_file_with_error(fd, ERRNO_NOTDIR),
                |dir: DescriptorHandle|
                    HostCall::SetTimesAt {
                        fd: dir,
                        at_flags: PathFlags {
                            symlink_follow: has32(flags, LOOKUPFLAGS_SYMLINK_FOLLOW),
                        },
                        atim: spec_new_timestamp(atim, fst_flags, FSTFLAGS_ATIM, FSTFLAGS_ATIM_NOW),
                        mtim: spec_new_timestamp(mtim, fst_flags, FSTFLAGS_MTIM, FSTFLAGS_MTIM_NOW),
                    },
            ),
    {
        let atim = atim_from_fstflags(atim, fst_flags);
        let mtim = mtim_from_fstflags(mtim, fst_flags);
        let at_flags = at_flags_from_lookupflags(flags);
        match self.get_dir(fd) {
            Ok(dir) => Plan::Finish(HostCall::SetTimesAt { fd: dir.fd, at_flags, atim, mtim }),
            Err(errno) => Plan::Done(errno),
        }
    }

    /// Creates a hard link.
    pub fn path_link(&self, old_fd: Fd, old_flags: Lookupflags, new_fd: Fd) -> (r: Plan<Errno>)
        ensures
            r == on_dirs(
                self.table().spec_file_with_error(old_fd, ERRNO_NOTDIR),
                self.table().spec_file_with_error(new_fd, ERRNO_NOTDIR),
                |old_dir: DescriptorHandle, new_dir: DescriptorHandle|
                    HostCall::LinkAt {
                        old: old_dir,
                        at_flags: PathFlags {
                            symlink_follow: has32(old_flags, LOOKUPFLAGS_SYMLINK_FOLLOW),
                        },
                        new: new_dir,
                    },
            ),
    {
        let at_flags = at_flags_from_lookupflags(old_flags);
        match self.get_dir(old_fd) {
            Err(errno) => Plan::Done(errno),
            Ok(old_dir) => match self.get_dir(new_fd) {
                Err(errno) => Plan::Done(errno),
                Ok(new_dir) => Plan::Finish(
                    HostCall::LinkAt { old: old_dir.fd, at_flags, new: new_dir.fd },
                ),
            },
        }
    }

    /// `path_open` before the host is asked: the flags of the flat interface
    /// are translated; the append flag stays with the adapter.
    pub open spec fn spec_path_open(
        &self,
        fd: Fd,
        dirflags: Lookupflags,
        oflags: Oflags,
        fs_rights_base: Rights,
        fdflags: Fdflags,
    ) -> Plan<Errno> {
        on_dir(
            self.table().spec_file_with_error(fd, ERRNO_NOTDIR),
            |dir: DescriptorHandle|
                HostCall::OpenAt {
                    fd: dir,
                    at_flags: PathFlags {
                        symlink_follow: has32(dirflags, LOOKUPFLAGS_SYMLINK_FOLLOW),
                    },
                    o_flags: OpenFlags {
                        create: has16(oflags, OFLAGS_CREAT),
                        directory: has16(oflags, OFLAGS_DIRECTORY),
                        exclusive: has16(oflags, OFLAGS_EXCL),
                        truncate: has16(oflags, OFLAGS_TRUNC),
                    },
                    flags: DescriptorFlags {
                        read: has64(fs_rights_base, RIGHTS_FD_READ),
                        write: has64(fs_rights_base, RIGHTS_FD_WRITE),
                        non_blocking: has16(fdflags, FDFLAGS_NONBLOCK),
                        file_integrity_sync: has16(fdflags, FDFLAGS_SYNC),
                        data_integrity_sync: has16(fdflags, FDFLAGS_DSYNC),
                        requested_write_sync: has16(fdflags, FDFLAGS_RSYNC),
                    },
                    mode: spec_open_mode(),
                },
        )
    }

    /// Opens a file or directory below the directory in slot `fd`. The
    /// inheriting rights play no part.
    pub fn path_open(
        &self,
        fd: Fd,
        dirflags: Lookupflags,
        oflags: Oflags,
        fs_rights_base: Rights,
        fs_rights_inheriting: Rights,
        fdflags: Fdflags,
    ) -> (r: Plan<Errno>)
        ensures
            r == self.spec_path_open(fd, dirflags, oflags, fs_rights_base, fdflags),
    {
        let at_flags = at_flags_from_lookupflags(dirflags);
        let o_flags = o_flags_from_oflags(oflags);
        let flags = descriptor_flags_from_flags(fs_rights_base, fdflags);
        let mode = Modes { readable: true, writeable: true, executable: false };
        match self.get_dir(fd) {
            Ok(dir) => Plan::Finish(
                HostCall::OpenAt { fd: dir.fd, at_flags, o_flags, flags, mode },
            ),
            Err(errno) => Plan::Done(errno),
        }
    }

    /// Ends `path_open` with the outcome of the open. The new file gets a
    /// descriptor: the head of the free list where a slot is free, a new slot
    /// at the end of the table otherwise; in neither case one that was in use.
    /// The file starts at position zero, in append mode where the flags of the
    /// open ask for it. Where the table is full, the call fails for lack of
    /// memory and the file is returned to be handed back.
    pub fn path_open_finish(
        &mut self,
        fdflags: Fdflags,
        reply: Result<DescriptorHandle, ErrorCode>,
    ) -> (r: (
        Result<Fd, Errno>,
        Released,
    ))
        requires
            old(self).wf(),
        ensures
            final(self).wf(),
            final(self).same_but_table(old(self)),
            match reply {
                Err(err) => r.0 == Err::<Fd, Errno>(spec_errno(err)) && r.1
                    == spec_nothing_released() && final(self).same_table(old(self)),
                Ok(handle) => {
                    let streams = Streams::spec_of_file(handle, has16(fdflags, FDFLAGS_APPEND));
                    match r.0 {
                        Ok(fd) => {
                            &&& !old(self).table().is_open(fd)
                            &&& fd == (match head_of(old(self).table().free_list()) {
                                Some(head) => head,
                                None => old(self).table()@.len() as Fd,
                            })
                            &&& final(self).table()@ == (if fd < old(self).table()@.len() {
                                old(self).table()@.update(fd as int, Descriptor::Streams(streams))
                            } else {
                                old(self).table()@.push(Descriptor::Streams(streams))
                            })
                            &&& final(self).table().free_list() == without(
                                old(self).table().free_list(),
                                fd,
                            )
                            &&& r.1 == spec_nothing_released()
                        },
                        Err(errno) => {
                            &&& errno == ERRNO_NOMEM
                            &&& final(self).same_table(old(self))
                            &&& r.1 == streams.spec_release()
                        },
                    }
                },
            },
            reply is Ok ==> (r.0 is Err <==> old(self).table().free_list().len() == 0 && old(
                self,
            ).table()@.len() >= MAX_DESCRIPTORS),
    {
        match reply {
            Err(err) => (Err(errno_from_error_code(err)), nothing_released()),
            Ok(handle) => {
                let append: bool = fdflags & FDFLAGS_APPEND == FDFLAGS_APPEND;
                let streams = Streams::of_file(handle, append);
                match self.descriptors.install(streams) {
                    Ok(fd) => (Ok(fd), nothing_released()),
                    Err(errno) => (Err(errno), streams.release()),
                }
            },
        }
    }

    /// Reads the target of a symbolic link.
    pub fn path_readlink(&self, fd: Fd, buf: usize, buf_len: Size) -> (r: Plan<Errno>)
        ensures
            r == on_dir(
                self.table().spec_file_with_error(fd, ERRNO_NOTDIR),
                |dir: DescriptorHandle|
                    HostCall::ReadlinkAt { fd: dir, into: spec_readlink_buffer(buf, buf_len) },
            ),
    {
        let into = if buf_len < PATH_MAX {
            ResultBuffer::PathScratch
        } else {
            ResultBuffer::Caller { ptr: buf, len: buf_len }
        };
        match self.get_dir(fd) {
            Ok(dir) => Plan::Finish(HostCall::ReadlinkAt { fd: dir.fd, into }),
            Err(errno) => Plan::Done(errno),
        }
    }

    /// Removes a directory.
    pub fn path_remove_directory(&self, fd: Fd) -> (r: Plan<Errno>)
        ensures
            r == on_dir(
                self.table().spec_file_with_error(fd, ERRNO_NOTDIR),
                |dir: DescriptorHandle| HostCall::RemoveDirectoryAt { fd: dir },
            ),
    {
        match self.get_dir(fd) {
            Ok(dir) => Plan::Finish(HostCall::RemoveDirectoryAt { fd: dir.fd }),
            Err(errno) => Plan::Done(errno),
        }
    }

    /// Renames a file or directory.
    pub fn path_rename(&self, old_fd: Fd, new_fd: Fd) -> (r: Plan<Errno>)
        ensures
            r == on_dirs(
                self.table().spec_file_with_error(old_fd, ERRNO_NOTDIR),
                self.table().spec_file_with_error(new_fd, ERRNO_NOTDIR),
                |old_dir: DescriptorHandle, new_dir: DescriptorHandle|
                    HostCall::RenameAt { old: old_dir, new: new_dir },
            ),
    {
        match self.get_dir(old_fd) {
            Err(errno) => Plan::Done(errno),
            Ok(old_dir) => match self.get_dir(new_fd) {
                Err(errno) => Plan::Done(errno),
                Ok(new_dir) => Plan::Finish(
                    HostCall::RenameAt { old: old_dir.fd, new: new_dir.fd },
                ),
            },
        }
    }

    /// Creates a symbolic link.
    pub fn path_symlink(&self, fd: Fd) -> (r: Plan<Errno>)
        ensures
            r == on_dir(
                self.table().spec_file_with_error(fd, ERRNO_NOTDIR),
                |dir: DescriptorHandle| HostCall::SymlinkAt { fd: dir },
            ),
    {
        match self.get_dir(fd) {
            Ok(dir) => Plan::Finish(HostCall::SymlinkAt { fd: dir.fd }),
            Err(errno) => Plan::Done(errno),
        }
    }

    /// Unlinks a file.
    pub fn path_unlink_file(&self, fd: Fd) -> (r: Plan<Errno>)
        ensures
            r == on_dir(
                self.table().spec_file_with_error(fd, ERRNO_NOTDIR),
                |dir: DescriptorHandle| HostCall::UnlinkFileAt { fd: dir },
            ),
    {
        match self.get_dir(fd) {
            Ok(dir) => Plan::Finish(HostCall::UnlinkFileAt { fd: dir.fd }),
            Err(errno) => Plan::Done(errno),
        }
    }
}

} // verus!
