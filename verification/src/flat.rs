//! The flat interface: the integer types, numeric codes and flag bits that a
//! guest sees, numbered exactly as the flat interface numbers them.

use vstd::prelude::*;

verus! {

/// A file descriptor number as the guest knows it.
pub type Fd = u32;

/// A length or count in guest memory.
pub type Size = usize;

/// A file size or an absolute offset into a file.
pub type Filesize = u64;

/// A relative offset into a file.
pub type Filedelta = i64;

/// A point in time or a duration, in nanoseconds.
pub type Timestamp = u64;

/// A position in a directory listing.
pub type Dircookie = u64;

/// A file serial number.
pub type Inode = u64;

/// A device identifier.
pub type Device = u64;

/// A hard-link count.
pub type Linkcount = u64;

/// A user value that travels from a subscription to its event.
pub type Userdata = u64;

/// A process exit code.
pub type Exitcode = u32;

/// An error code of the flat interface.
pub type Errno = u16;

/// A file type code of the flat interface.
pub type Filetype = u8;

/// The origin of a seek.
pub type Whence = u8;

/// A clock identifier.
pub type Clockid = u32;

/// An event type tag.
pub type Eventtype = u8;

/// A set of rights, one bit each.
pub type Rights = u64;

/// Descriptor flags, one bit each.
pub type Fdflags = u16;

/// Flags that select which timestamps to set.
pub type Fstflags = u16;

/// Flags of a path lookup.
pub type Lookupflags = u32;

/// Flags of an open.
pub type Oflags = u16;

/// Flags of a read/write event.
pub type Eventrwflags = u16;

/// Flags of a clock subscription.
pub type Subclockflags = u16;

/// A signal number.
pub type Signal = u8;

/// No error occurred.
pub const ERRNO_SUCCESS: Errno = 0;

pub const ERRNO_2BIG: Errno = 1;

pub const ERRNO_ACCES: Errno = 2;

pub const ERRNO_ADDRINUSE: Errno = 3;

pub const ERRNO_ADDRNOTAVAIL: Errno = 4;

pub const ERRNO_AFNOSUPPORT: Errno = 5;

pub const ERRNO_AGAIN: Errno = 6;

pub const ERRNO_ALREADY: Errno = 7;

/// Bad file descriptor.
pub const ERRNO_BADF: Errno = 8;

pub const ERRNO_BADMSG: Errno = 9;

pub const ERRNO_BUSY: Errno = 10;

pub const ERRNO_CANCELED: Errno = 11;

pub const ERRNO_CHILD: Errno = 12;

pub const ERRNO_CONNABORTED: Errno = 13;

pub const ERRNO_CONNREFUSED: Errno = 14;

pub const ERRNO_CONNRESET: Errno = 15;

pub const ERRNO_DEADLK: Errno = 16;

pub const ERRNO_DESTADDRREQ: Errno = 17;

pub const ERRNO_DOM: Errno = 18;

pub const ERRNO_DQUOT: Errno = 19;

pub const ERRNO_EXIST: Errno = 20;

pub const ERRNO_FAULT: Errno = 21;

pub const ERRNO_FBIG: Errno = 22;

pub const ERRNO_HOSTUNREACH: Errno = 23;

pub const ERRNO_IDRM: Errno = 24;

pub const ERRNO_ILSEQ: Errno = 25;

pub const ERRNO_INPROGRESS: Errno = 26;

/// Interrupted function.
pub const ERRNO_INTR: Errno = 27;

/// Invalid argument.
pub const ERRNO_INVAL: Errno = 28;

/// I/O error.
pub const ERRNO_IO: Errno = 29;

pub const ERRNO_ISCONN: Errno = 30;

pub const ERRNO_ISDIR: Errno = 31;

pub const ERRNO_LOOP: Errno = 32;

pub const ERRNO_MFILE: Errno = 33;

pub const ERRNO_MLINK: Errno = 34;

pub const ERRNO_MSGSIZE: Errno = 35;

pub const ERRNO_MULTIHOP: Errno = 36;

/// Filename too long.
pub const ERRNO_NAMETOOLONG: Errno = 37;

pub const ERRNO_NETDOWN: Errno = 38;

pub const ERRNO_NETRESET: Errno = 39;

pub const ERRNO_NETUNREACH: Errno = 40;

pub const ERRNO_NFILE: Errno = 41;

pub const ERRNO_NOBUFS: Errno = 42;

pub const ERRNO_NODEV: Errno = 43;

/// No such file or directory.
pub const ERRNO_NOENT: Errno = 44;

pub const ERRNO_NOEXEC: Errno = 45;

pub const ERRNO_NOLCK: Errno = 46;

pub const ERRNO_NOLINK: Errno = 47;

/// Not enough space.
pub const ERRNO_NOMEM: Errno = 48;

pub const ERRNO_NOMSG: Errno = 49;

pub const ERRNO_NOPROTOOPT: Errno = 50;

pub const ERRNO_NOSPC: Errno = 51;

pub const ERRNO_NOSYS: Errno = 52;

pub const ERRNO_NOTCONN: Errno = 53;

/// Not a directory or a symbolic link to a directory.
pub const ERRNO_NOTDIR: Errno = 54;

pub const ERRNO_NOTEMPTY: Errno = 55;

pub const ERRNO_NOTRECOVERABLE: Errno = 56;

pub const ERRNO_NOTSOCK: Errno = 57;

/// Not supported.
pub const ERRNO_NOTSUP: Errno = 58;

pub const ERRNO_NOTTY: Errno = 59;

pub const ERRNO_NXIO: Errno = 60;

/// Value too large to be stored in data type.
pub const ERRNO_OVERFLOW: Errno = 61;

pub const ERRNO_OWNERDEAD: Errno = 62;

pub const ERRNO_PERM: Errno = 63;

pub const ERRNO_PIPE: Errno = 64;

pub const ERRNO_PROTO: Errno = 65;

pub const ERRNO_PROTONOSUPPORT: Errno = 66;

pub const ERRNO_PROTOTYPE: Errno = 67;

pub const ERRNO_RANGE: Errno = 68;

pub const ERRNO_ROFS: Errno = 69;

/// Invalid seek.
pub const ERRNO_SPIPE: Errno = 70;

pub const ERRNO_SRCH: Errno = 71;

pub const ERRNO_STALE: Errno = 72;

pub const ERRNO_TIMEDOUT: Errno = 73;

pub const ERRNO_TXTBSY: Errno = 74;

pub const ERRNO_XDEV: Errno = 75;

pub const ERRNO_NOTCAPABLE: Errno = 76;

/// The largest error code the flat interface defines.
pub const ERRNO_LAST: Errno = 76;

pub const FILETYPE_UNKNOWN: Filetype = 0;

pub const FILETYPE_BLOCK_DEVICE: Filetype = 1;

pub const FILETYPE_CHARACTER_DEVICE: Filetype = 2;

pub const FILETYPE_DIRECTORY: Filetype = 3;

pub const FILETYPE_REGULAR_FILE: Filetype = 4;

pub const FILETYPE_SOCKET_DGRAM: Filetype = 5;

pub const FILETYPE_SOCKET_STREAM: Filetype = 6;

pub const FILETYPE_SYMBOLIC_LINK: Filetype = 7;

pub const WHENCE_SET: Whence = 0;

pub const WHENCE_CUR: Whence = 1;

pub const WHENCE_END: Whence = 2;

pub const CLOCKID_REALTIME: Clockid = 0;

pub const CLOCKID_MONOTONIC: Clockid = 1;

pub const CLOCKID_PROCESS_CPUTIME_ID: Clockid = 2;

pub const CLOCKID_THREAD_CPUTIME_ID: Clockid = 3;

pub const EVENTTYPE_CLOCK: Eventtype = 0;

pub const EVENTTYPE_FD_READ: Eventtype = 1;

pub const EVENTTYPE_FD_WRITE: Eventtype = 2;

pub const ADVICE_NORMAL: u8 = 0;

pub const ADVICE_SEQUENTIAL: u8 = 1;

pub const ADVICE_RANDOM: u8 = 2;

pub const ADVICE_WILLNEED: u8 = 3;

pub const ADVICE_DONTNEED: u8 = 4;

pub const ADVICE_NOREUSE: u8 = 5;

pub const RIGHTS_FD_DATASYNC: Rights = 0x1;

pub const RIGHTS_FD_READ: Rights = 0x2;

pub const RIGHTS_FD_SEEK: Rights = 0x4;

pub const RIGHTS_FD_FDSTAT_SET_FLAGS: Rights = 0x8;

pub const RIGHTS_FD_SYNC: Rights = 0x10;

pub const RIGHTS_FD_TELL: Rights = 0x20;

pub const RIGHTS_FD_WRITE: Rights = 0x40;

pub const RIGHTS_FD_ADVISE: Rights = 0x80;

pub const RIGHTS_FD_ALLOCATE: Rights = 0x100;

pub const RIGHTS_PATH_CREATE_DIRECTORY: Rights = 0x200;

pub const RIGHTS_PATH_CREATE_FILE: Rights = 0x400;

pub const RIGHTS_PATH_LINK_SOURCE: Rights = 0x800;

pub const RIGHTS_PATH_LINK_TARGET: Rights = 0x1000;

pub const RIGHTS_PATH_OPEN: Rights = 0x2000;

pub const RIGHTS_FD_READDIR: Rights = 0x4000;

pub const RIGHTS_PATH_READLINK: Rights = 0x8000;

pub const RIGHTS_PATH_RENAME_SOURCE: Rights = 0x10000;

pub const RIGHTS_PATH_RENAME_TARGET: Rights = 0x20000;

pub const RIGHTS_PATH_FILESTAT_GET: Rights = 0x40000;

pub const RIGHTS_PATH_FILESTAT_SET_SIZE: Rights = 0x80000;

pub const RIGHTS_PATH_FILESTAT_SET_TIMES: Rights = 0x100000;

pub const RIGHTS_FD_FILESTAT_GET: Rights = 0x200000;

pub const RIGHTS_FD_FILESTAT_SET_SIZE: Rights = 0x400000;

pub const RIGHTS_FD_FILESTAT_SET_TIMES: Rights = 0x800000;

pub const RIGHTS_PATH_SYMLINK: Rights = 0x1000000;

pub const RIGHTS_PATH_REMOVE_DIRECTORY: Rights = 0x2000000;

pub const RIGHTS_PATH_UNLINK_FILE: Rights = 0x4000000;

pub const RIGHTS_POLL_FD_READWRITE: Rights = 0x8000000;

pub const RIGHTS_SOCK_SHUTDOWN: Rights = 0x10000000;

pub const RIGHTS_SOCK_ACCEPT: Rights = 0x20000000;

/// Every bit of a rights word.
pub const RIGHTS_ALL: Rights = 0xffff_ffff_ffff_ffff;

pub const FDFLAGS_APPEND: Fdflags = 0x1;

pub const FDFLAGS_DSYNC: Fdflags = 0x2;

pub const FDFLAGS_NONBLOCK: Fdflags = 0x4;

pub const FDFLAGS_RSYNC: Fdflags = 0x8;

pub const FDFLAGS_SYNC: Fdflags = 0x10;

pub const FSTFLAGS_ATIM: Fstflags = 0x1;

pub const FSTFLAGS_ATIM_NOW: Fstflags = 0x2;

pub const FSTFLAGS_MTIM: Fstflags = 0x4;

pub const FSTFLAGS_MTIM_NOW: Fstflags = 0x8;

pub const LOOKUPFLAGS_SYMLINK_FOLLOW: Lookupflags = 0x1;

pub const OFLAGS_CREAT: Oflags = 0x1;

pub const OFLAGS_DIRECTORY: Oflags = 0x2;

pub const OFLAGS_EXCL: Oflags = 0x4;

pub const OFLAGS_TRUNC: Oflags = 0x8;

pub const EVENTRWFLAGS_FD_READWRITE_HANGUP: Eventrwflags = 0x1;

pub const SUBCLOCKFLAGS_SUBSCRIPTION_CLOCK_ABSTIME: Subclockflags = 0x1;

/// The cookie of the first entry of a directory.
pub const DIRCOOKIE_START: Dircookie = 0;

pub const FD_STDIN: Fd = 0;

pub const FD_STDOUT: Fd = 1;

pub const FD_STDERR: Fd = 2;

/// The tag of a preopened directory in a prestat record.
pub const PREOPENTYPE_DIR: u8 = 0;

/// Nanoseconds in one second.
pub const NANOS_PER_SECOND: u64 = 1_000_000_000;

} // verus!
