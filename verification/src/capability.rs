//! The capability interface: the handles, records and requests of the
//! handle-based interface that the adapter consumes. The adapter never performs
//! one of these operations itself; it names the operation it needs as a
//! [`HostCall`] and is handed the outcome.

use vstd::prelude::*;

verus! {

/// A handle to an open file or directory.
pub type DescriptorHandle = u32;

/// A handle to a readable stream.
pub type InputStream = u32;

/// A handle to a writable stream.
pub type OutputStream = u32;

/// A handle to an in-progress directory listing.
pub type DirectoryEntryStream = u32;

/// A handle to something that can be waited on.
pub type Pollable = u32;

/// A handle to a monotonic clock.
pub type MonotonicClock = u32;

/// A handle to a wall clock.
pub type WallClock = u32;

/// A handle to a TCP socket.
pub type TcpSocket = u32;

/// The error kinds that a filesystem operation can report.
#[derive(Clone, Copy, PartialEq, Eq, Structural, Debug)]
pub enum ErrorCode {
    Access,
    WouldBlock,
    Already,
    BadDescriptor,
    Busy,
    Deadlock,
    Quota,
    Exist,
    FileTooLarge,
    IllegalByteSequence,
    InProgress,
    Interrupted,
    Invalid,
    Io,
    IsDirectory,
    Loop,
    TooManyLinks,
    MessageSize,
    NameTooLong,
    NoDevice,
    NoEntry,
    NoLock,
    InsufficientMemory,
    InsufficientSpace,
    NotDirectory,
    NotEmpty,
    NotRecoverable,
    Unsupported,
    NoTty,
    NoSuchDevice,
    Overflow,
    NotPermitted,
    Pipe,
    ReadOnly,
    InvalidSeek,
    TextFileBusy,
    CrossDevice,
}

/// The error kinds that a network operation can report.
#[derive(Clone, Copy, PartialEq, Eq, Structural, Debug)]
pub enum NetworkError {
    Unknown,
    Again,
}

/// What kind of object a descriptor handle refers to.
#[derive(Clone, Copy, PartialEq, Eq, Structural, Debug)]
pub enum DescriptorType {
    Unknown,
    BlockDevice,
    CharacterDevice,
    Directory,
    Fifo,
    SymbolicLink,
    RegularFile,
    Socket,
}

/// Advice on how a range of a file will be accessed.
#[derive(Clone, Copy, PartialEq, Eq, Structural, Debug)]
pub enum Advice {
    Normal,
    Sequential,
    Random,
    WillNeed,
    DontNeed,
    NoReuse,
}

/// The flags of an open descriptor handle.
#[derive(Clone, Copy, PartialEq, Eq, Structural, Debug)]
pub struct DescriptorFlags {
    pub read: bool,
    pub write: bool,
    pub non_blocking: bool,
    pub file_integrity_sync: bool,
    pub data_integrity_sync: bool,
    pub requested_write_sync: bool,
}

/// The flags of a path lookup.
#[derive(Clone, Copy, PartialEq, Eq, Structural, Debug)]
pub struct PathFlags {
    pub symlink_follow: bool,
}

/// The flags of an open-at operation.
#[derive(Clone, Copy, PartialEq, Eq, Structural, Debug)]
pub struct OpenFlags {
    pub create: bool,
    pub directory: bool,
    pub exclusive: bool,
    pub truncate: bool,
}

/// The permission bits given to a file that an open-at creates.
#[derive(Clone, Copy, PartialEq, Eq, Structural, Debug)]
pub struct Modes {
    pub readable: bool,
    pub writeable: bool,
    pub executable: bool,
}

/// A wall-clock time: whole seconds and the nanoseconds within the second.
#[derive(Clone, Copy, PartialEq, Eq, Structural, Debug)]
pub struct Datetime {
    pub seconds: u64,
    pub nanoseconds: u32,
}

/// What to do with one timestamp of a file.
#[derive(Clone, Copy, PartialEq, Eq, Structural, Debug)]
pub enum NewTimestamp {
    NoChange,
    Now,
    Timestamp(Datetime),
}

/// The attributes of a file as the capability interface reports them.
#[derive(Clone, Copy, PartialEq, Eq, Structural, Debug)]
pub struct DescriptorStat {
    pub device: u64,
    pub inode: u64,
    pub type_: DescriptorType,
    pub link_count: u64,
    pub size: u64,
    pub data_access_timestamp: Datetime,
    pub data_modification_timestamp: Datetime,
    pub status_change_timestamp: Datetime,
}

/// One entry of a directory listing as the capability interface yields it.
/// The listing never holds `.` or `..`.
#[derive(Debug)]
pub struct DirectoryEntry {
    pub inode: Option<u64>,
    pub type_: DescriptorType,
    pub name: Vec<u8>,
}

/// The memory that a variable-length result of a host operation is to be
/// written to.
#[derive(Clone, Copy, PartialEq, Eq, Structural, Debug)]
pub enum ResultBuffer {
    /// The buffer that the guest passed to the call: its address and its
    /// length.
    Caller { ptr: usize, len: usize },
    /// The adapter's own path scratch buffer.
    PathScratch,
    /// The adapter's long-lived arena.
    Arena,
}

/// One operation of the capability interface, with the arguments that the
/// adapter chose for it. Data to write is named by its address and length in
/// guest memory; paths are the guest's own bytes and travel beside the request.
#[allow(inconsistent_fields)]
#[derive(Clone, Copy, PartialEq, Eq, Structural, Debug)]
pub enum HostCall {
    Advise { fd: DescriptorHandle, offset: u64, len: u64, advice: Advice },
    SyncData { fd: DescriptorHandle },
    Sync { fd: DescriptorHandle },
    GetFlags { fd: DescriptorHandle },
    GetType { fd: DescriptorHandle },
    SetFlags { fd: DescriptorHandle, flags: DescriptorFlags },
    SetSize { fd: DescriptorHandle, size: u64 },
    SetTimes { fd: DescriptorHandle, atim: NewTimestamp, mtim: NewTimestamp },
    Read { fd: DescriptorHandle, len: u64, offset: u64, into: ResultBuffer },
    Write { fd: DescriptorHandle, offset: u64, buf: usize, buf_len: usize },
    ReadViaStream { fd: DescriptorHandle, offset: u64 },
    WriteViaStream { fd: DescriptorHandle, offset: u64 },
    AppendViaStream { fd: DescriptorHandle },
    ReadDirectory { fd: DescriptorHandle },
    ReadDirectoryEntry { stream: DirectoryEntryStream, into: ResultBuffer },
    DropDirectoryEntryStream { stream: DirectoryEntryStream },
    CreateDirectoryAt { fd: DescriptorHandle },
    Stat { fd: DescriptorHandle },
    StatAt { fd: DescriptorHandle, at_flags: PathFlags },
    SetTimesAt {
        fd: DescriptorHandle,
        at_flags: PathFlags,
        atim: NewTimestamp,
        mtim: NewTimestamp,
    },
    LinkAt { old: DescriptorHandle, at_flags: PathFlags, new: DescriptorHandle },
    OpenAt {
        fd: DescriptorHandle,
        at_flags: PathFlags,
        o_flags: OpenFlags,
        flags: DescriptorFlags,
        mode: Modes,
    },
    ReadlinkAt { fd: DescriptorHandle, into: ResultBuffer },
    RemoveDirectoryAt { fd: DescriptorHandle },
    RenameAt { old: DescriptorHandle, new: DescriptorHandle },
    SymlinkAt { fd: DescriptorHandle },
    UnlinkFileAt { fd: DescriptorHandle },
    DropDescriptor { fd: DescriptorHandle },
    StreamRead { stream: InputStream, len: u64, into: ResultBuffer },
    StreamWrite { stream: OutputStream, buf: usize, buf_len: usize },
    DropInputStream { stream: InputStream },
    DropOutputStream { stream: OutputStream },
    SubscribeToInputStream { stream: InputStream },
    SubscribeToOutputStream { stream: OutputStream },
    InstanceMonotonicClock,
    InstanceWallClock,
    MonotonicNow { clock: MonotonicClock },
    MonotonicResolution { clock: MonotonicClock },
    MonotonicSubscribe { clock: MonotonicClock, when: u64, absolute: bool },
    WallNow { clock: WallClock },
    WallResolution { clock: WallClock },
    PollOneoff { into: ResultBuffer },
    DropPollable { pollable: Pollable },
    GetRandomBytes { len: u64, into: ResultBuffer },
    GetEnvironment { into: ResultBuffer },
    GetPreopens { into: ResultBuffer },
    PrintStderr { buf: usize, buf_len: usize },
    Exit { success: bool },
}

/// How to come by a handle that is created when first needed.
#[derive(Clone, Copy, PartialEq, Eq, Structural, Debug)]
pub enum Source {
    /// The handle exists.
    Ready(u32),
    /// The handle is created by this operation and is then to be recorded.
    Create(HostCall),
}

/// What a call of the flat interface needs next.
#[derive(Debug)]
pub enum Plan<T> {
    /// Nothing: this is its result.
    Done(T),
    /// Something that the adapter keeps: the outcome of this operation is to
    /// be recorded, and the call is then to be made again.
    Fetch(HostCall),
    /// Its last operation: the outcome of this operation decides the result.
    Finish(HostCall),
}

} // verus!
