//! Translation between the two interfaces: error kinds to error codes, file
//! types, timestamps and every flag word, in both directions.

use vstd::prelude::*;
use crate::capability::{
    Advice, Datetime, DescriptorFlags, DescriptorType, ErrorCode, NetworkError, NewTimestamp,
    OpenFlags, PathFlags,
};
use crate::flat::{
    ADVICE_DONTNEED, ADVICE_NOREUSE, ADVICE_NORMAL, ADVICE_RANDOM, ADVICE_SEQUENTIAL,
    ADVICE_WILLNEED, ERRNO_ACCES, ERRNO_AGAIN, ERRNO_ALREADY, ERRNO_BADF, ERRNO_BUSY,
    ERRNO_DEADLK, ERRNO_DQUOT, ERRNO_EXIST, ERRNO_FBIG, ERRNO_ILSEQ, ERRNO_INPROGRESS,
    ERRNO_INTR, ERRNO_INVAL, ERRNO_IO, ERRNO_ISDIR, ERRNO_LAST, ERRNO_LOOP, ERRNO_MLINK,
    ERRNO_MSGSIZE, ERRNO_NAMETOOLONG, ERRNO_NODEV, ERRNO_NOENT, ERRNO_NOLCK, ERRNO_NOMEM,
    ERRNO_NOSPC, ERRNO_NOTDIR, ERRNO_NOTEMPTY, ERRNO_NOTRECOVERABLE, ERRNO_NOTSUP, ERRNO_NOTTY,
    ERRNO_NXIO, ERRNO_OVERFLOW, ERRNO_PERM, ERRNO_PIPE, ERRNO_ROFS, ERRNO_SPIPE, ERRNO_SUCCESS,
    ERRNO_TXTBSY, ERRNO_XDEV, Errno, FDFLAGS_APPEND, FDFLAGS_DSYNC, FDFLAGS_NONBLOCK,
    FDFLAGS_RSYNC, FDFLAGS_SYNC, FILETYPE_BLOCK_DEVICE, FILETYPE_CHARACTER_DEVICE,
    FILETYPE_DIRECTORY, FILETYPE_REGULAR_FILE, FILETYPE_SOCKET_DGRAM, FILETYPE_SOCKET_STREAM,
    FILETYPE_SYMBOLIC_LINK, FILETYPE_UNKNOWN, FSTFLAGS_ATIM, FSTFLAGS_ATIM_NOW, FSTFLAGS_MTIM,
    FSTFLAGS_MTIM_NOW, Fdflags, Filetype, Fstflags, LOOKUPFLAGS_SYMLINK_FOLLOW, Lookupflags,
    NANOS_PER_SECOND, OFLAGS_CREAT, OFLAGS_DIRECTORY, OFLAGS_EXCL, OFLAGS_TRUNC, Oflags,
    RIGHTS_ALL, RIGHTS_FD_READ, RIGHTS_FD_WRITE, Rights, Timestamp,
};

verus! {

/// The flat error code that stands for a capability-level error kind.
pub open spec fn spec_errno(err: ErrorCode) -> Errno {
    match err {
        ErrorCode::Access => ERRNO_ACCES,
        ErrorCode::WouldBlock => ERRNO_AGAIN,
        ErrorCode::Already => ERRNO_ALREADY,
        ErrorCode::BadDescriptor => ERRNO_BADF,
        ErrorCode::Busy => ERRNO_BUSY,
        ErrorCode::Deadlock => ERRNO_DEADLK,
        ErrorCode::Quota => ERRNO_DQUOT,
        ErrorCode::Exist => ERRNO_EXIST,
        ErrorCode::FileTooLarge => ERRNO_FBIG,
        ErrorCode::IllegalByteSequence => ERRNO_ILSEQ,
        ErrorCode::InProgress => ERRNO_INPROGRESS,
        ErrorCode::Interrupted => ERRNO_INTR,
        ErrorCode::Invalid => ERRNO_INVAL,
        ErrorCode::Io => ERRNO_IO,
        ErrorCode::IsDirectory => ERRNO_ISDIR,
        ErrorCode::Loop => ERRNO_LOOP,
        ErrorCode::TooManyLinks => ERRNO_MLINK,
        ErrorCode::MessageSize => ERRNO_MSGSIZE,
        ErrorCode::NameTooLong => ERRNO_NAMETOOLONG,
        ErrorCode::NoDevice => ERRNO_NODEV,
        ErrorCode::NoEntry => ERRNO_NOENT,
        ErrorCode::NoLock => ERRNO_NOLCK,
        ErrorCode::InsufficientMemory => ERRNO_NOMEM,
        ErrorCode::InsufficientSpace => ERRNO_NOSPC,
        ErrorCode::Unsupported => ERRNO_NOTSUP,
        ErrorCode::NotDirectory => ERRNO_NOTDIR,
        ErrorCode::NotEmpty => ERRNO_NOTEMPTY,
        ErrorCode::NotRecoverable => ERRNO_NOTRECOVERABLE,
        ErrorCode::NoTty => ERRNO_NOTTY,
        ErrorCode::NoSuchDevice => ERRNO_NXIO,
        ErrorCode::Overflow => ERRNO_OVERFLOW,
        ErrorCode::NotPermitted => ERRNO_PERM,
        ErrorCode::Pipe => ERRNO_PIPE,
        ErrorCode::ReadOnly => ERRNO_ROFS,
        ErrorCode::InvalidSeek => ERRNO_SPIPE,
        ErrorCode::TextFileBusy => ERRNO_TXTBSY,
        ErrorCode::CrossDevice => ERRNO_XDEV,
    }
}

/// The capability-level error kind that a flat error code stands for, if any.
pub open spec fn spec_error_code(errno: Errno) -> Option<ErrorCode> {
    if errno == ERRNO_ACCES {
        Some(ErrorCode::Access)
    } else if errno == ERRNO_AGAIN {
        Some(ErrorCode::WouldBlock)
    } else if errno == ERRNO_ALREADY {
        Some(ErrorCode::Already)
    } else if errno == ERRNO_BADF {
        Some(ErrorCode::BadDescriptor)
    } else if errno == ERRNO_BUSY {
        Some(ErrorCode::Busy)
    } else if errno == ERRNO_DEADLK {
        Some(ErrorCode::Deadlock)
    } else if errno == ERRNO_DQUOT {
        Some(ErrorCode::Quota)
    } else if errno == ERRNO_EXIST {
        Some(ErrorCode::Exist)
    } else if errno == ERRNO_FBIG {
        Some(ErrorCode::FileTooLarge)
    } else if errno == ERRNO_ILSEQ {
        Some(ErrorCode::IllegalByteSequence)
    } else if errno == ERRNO_INPROGRESS {
        Some(ErrorCode::InProgress)
    } else if errno == ERRNO_INTR {
        Some(ErrorCode::Interrupted)
    } else if errno == ERRNO_INVAL {
        Some(ErrorCode::Invalid)
    } else if errno == ERRNO_IO {
        Some(ErrorCode::Io)
    } else if errno == ERRNO_ISDIR {
        Some(ErrorCode::IsDirectory)
    } else if errno == ERRNO_LOOP {
        Some(ErrorCode::Loop)
    } else if errno == ERRNO_MLINK {
        Some(ErrorCode::TooManyLinks)
    } else if errno == ERRNO_MSGSIZE {
        Some(ErrorCode::MessageSize)
    } else if errno == ERRNO_NAMETOOLONG {
        Some(ErrorCode::NameTooLong)
    } else if errno == ERRNO_NODEV {
        Some(ErrorCode::NoDevice)
    } else if errno == ERRNO_NOENT {
        Some(ErrorCode::NoEntry)
    } else if errno == ERRNO_NOLCK {
        Some(ErrorCode::NoLock)
    } else if errno == ERRNO_NOMEM {
        Some(ErrorCode::InsufficientMemory)
    } else if errno == ERRNO_NOSPC {
        Some(ErrorCode::InsufficientSpace)
    } else if errno == ERRNO_NOTSUP {
        Some(ErrorCode::Unsupported)
    } else if errno == ERRNO_NOTDIR {
        Some(ErrorCode::NotDirectory)
    } else if errno == ERRNO_NOTEMPTY {
        Some(ErrorCode::NotEmpty)
    } else if errno == ERRNO_NOTRECOVERABLE {
        Some(ErrorCode::NotRecoverable)
    } else if errno == ERRNO_NOTTY {
        Some(ErrorCode::NoTty)
    } else if errno == ERRNO_NXIO {
        Some(ErrorCode::NoSuchDevice)
    } else if errno == ERRNO_OVERFLOW {
        Some(ErrorCode::Overflow)
    } else if errno == ERRNO_PERM {
        Some(ErrorCode::NotPermitted)
    } else if errno == ERRNO_PIPE {
        Some(ErrorCode::Pipe)
    } else if errno == ERRNO_ROFS {
        Some(ErrorCode::ReadOnly)
    } else if errno == ERRNO_SPIPE {
        Some(ErrorCode::InvalidSeek)
    } else if errno == ERRNO_TXTBSY {
        Some(ErrorCode::TextFileBusy)
    } else if errno == ERRNO_XDEV {
        Some(ErrorCode::CrossDevice)
    } else {
        None
    }
}

/// Translates a capability-level error kind into its flat error code. Every
/// kind has exactly one code, and none of them is the success code.
pub fn errno_from_error_code(err: ErrorCode) -> (r: Errno)
    ensures
        r == spec_errno(err),
        ERRNO_SUCCESS < r <= ERRNO_LAST,
{
    match err {
        ErrorCode::Access => ERRNO_ACCES,
        ErrorCode::WouldBlock => ERRNO_AGAIN,
        ErrorCode::Already => ERRNO_ALREADY,
        ErrorCode::BadDescriptor => ERRNO_BADF,
        ErrorCode::Busy => ERRNO_BUSY,
        ErrorCode::Deadlock => ERRNO_DEADLK,
        ErrorCode::Quota => ERRNO_DQUOT,
        ErrorCode::Exist => ERRNO_EXIST,
        ErrorCode::FileTooLarge => ERRNO_FBIG,
        ErrorCode::IllegalByteSequence => ERRNO_ILSEQ,
        ErrorCode::InProgress => ERRNO_INPROGRESS,
        ErrorCode::Interrupted => ERRNO_INTR,
        ErrorCode::Invalid => ERRNO_INVAL,
        ErrorCode::Io => ERRNO_IO,
        ErrorCode::IsDirectory => ERRNO_ISDIR,
        ErrorCode::Loop => ERRNO_LOOP,
        ErrorCode::TooManyLinks => ERRNO_MLINK,
        ErrorCode::MessageSize => ERRNO_MSGSIZE,
        ErrorCode::NameTooLong => ERRNO_NAMETOOLONG,
        ErrorCode::NoDevice => ERRNO_NODEV,
        ErrorCode::NoEntry => ERRNO_NOENT,
        ErrorCode::NoLock => ERRNO_NOLCK,
        ErrorCode::InsufficientMemory => ERRNO_NOMEM,
        ErrorCode::InsufficientSpace => ERRNO_NOSPC,
        ErrorCode::Unsupported => ERRNO_NOTSUP,
        ErrorCode::NotDirectory => ERRNO_NOTDIR,
        ErrorCode::NotEmpty => ERRNO_NOTEMPTY,
        ErrorCode::NotRecoverable => ERRNO_NOTRECOVERABLE,
        ErrorCode::NoTty => ERRNO_NOTTY,
        ErrorCode::NoSuchDevice => ERRNO_NXIO,
        ErrorCode::Overflow => ERRNO_OVERFLOW,
        ErrorCode::NotPermitted => ERRNO_PERM,
        ErrorCode::Pipe => ERRNO_PIPE,
        ErrorCode::ReadOnly => ERRNO_ROFS,
        ErrorCode::InvalidSeek => ERRNO_SPIPE,
        ErrorCode::TextFileBusy => ERRNO_TXTBSY,
        ErrorCode::CrossDevice => ERRNO_XDEV,
    }
}

/// Translates a flat error code back into the capability-level error kind it
/// stands for. Codes that no kind maps to give `None`.
pub fn error_code_from_errno(errno: Errno) -> (r: Option<ErrorCode>)
    ensures
        r == spec_error_code(errno),
{
    if errno == ERRNO_ACCES {
        Some(ErrorCode::Access)
    } else if errno == ERRNO_AGAIN {
        Some(ErrorCode::WouldBlock)
    } else if errno == ERRNO_ALREADY {
        Some(ErrorCode::Already)
    } else if errno == ERRNO_BADF {
        Some(ErrorCode::BadDescriptor)
    } else if errno == ERRNO_BUSY {
        Some(ErrorCode::Busy)
    } else if errno == ERRNO_DEADLK {
        Some(ErrorCode::Deadlock)
    } else if errno == ERRNO_DQUOT {
        Some(ErrorCode::Quota)
    } else if errno == ERRNO_EXIST {
        Some(ErrorCode::Exist)
    } else if errno == ERRNO_FBIG {
        Some(ErrorCode::FileTooLarge)
    } else if errno == ERRNO_ILSEQ {
        Some(ErrorCode::IllegalByteSequence)
    } else if errno == ERRNO_INPROGRESS {
        Some(ErrorCode::InProgress)
    } else if errno == ERRNO_INTR {
        Some(ErrorCode::Interrupted)
    } else if errno == ERRNO_INVAL {
        Some(ErrorCode::Invalid)
    } else if errno == ERRNO_IO {
        Some(ErrorCode::Io)
    } else if errno == ERRNO_ISDIR {
        Some(ErrorCode::IsDirectory)
    } else if errno == ERRNO_LOOP {
        Some(ErrorCode::Loop)
    } else if errno == ERRNO_MLINK {
        Some(ErrorCode::TooManyLinks)
    } else if errno == ERRNO_MSGSIZE {
        Some(ErrorCode::MessageSize)
    } else if errno == ERRNO_NAMETOOLONG {
        Some(ErrorCode::NameTooLong)
    } else if errno == ERRNO_NODEV {
        Some(ErrorCode::NoDevice)
    } else if errno == ERRNO_NOENT {
        Some(ErrorCode::NoEntry)
    } else if errno == ERRNO_NOLCK {
        Some(ErrorCode::NoLock)
    } else if errno == ERRNO_NOMEM {
        Some(ErrorCode::InsufficientMemory)
    } else if errno == ERRNO_NOSPC {
        Some(ErrorCode::InsufficientSpace)
    } else if errno == ERRNO_NOTSUP {
        Some(ErrorCode::Unsupported)
    } else if errno == ERRNO_NOTDIR {
        Some(ErrorCode::NotDirectory)
    } else if errno == ERRNO_NOTEMPTY {
        Some(ErrorCode::NotEmpty)
    } else if errno == ERRNO_NOTRECOVERABLE {
        Some(ErrorCode::NotRecoverable)
    } else if errno == ERRNO_NOTTY {
        Some(ErrorCode::NoTty)
    } else if errno == ERRNO_NXIO {
        Some(ErrorCode::NoSuchDevice)
    } else if errno == ERRNO_OVERFLOW {
        Some(ErrorCode::Overflow)
    } else if errno == ERRNO_PERM {
        Some(ErrorCode::NotPermitted)
    } else if errno == ERRNO_PIPE {
        Some(ErrorCode::Pipe)
    } else if errno == ERRNO_ROFS {
        Some(ErrorCode::ReadOnly)
    } else if errno == ERRNO_SPIPE {
        Some(ErrorCode::InvalidSeek)
    } else if errno == ERRNO_TXTBSY {
        Some(ErrorCode::TextFileBusy)
    } else if errno == ERRNO_XDEV {
        Some(ErrorCode::CrossDevice)
    } else {
        None
    }
}

/// The error mapping has a left inverse: translating a kind to its code and
/// back gives the kind again.
pub proof fn lemma_errno_round_trip(err: ErrorCode)
    ensures
        spec_error_code(spec_errno(err)) == Some(err),
{
}

/// Two different error kinds never share a flat error code.
pub proof fn lemma_errno_injective(a: ErrorCode, b: ErrorCode)
    requires
        spec_errno(a) == spec_errno(b),
    ensures
        a == b,
{
    lemma_errno_round_trip(a);
    lemma_errno_round_trip(b);
}

/// Translates a network error kind into its flat error code. The kind
/// `Unknown` has no code.
pub fn errno_from_network_error(err: NetworkError) -> (r: Errno)
    requires
        err != NetworkError::Unknown,
    ensures
        r == ERRNO_AGAIN,
{
    ERRNO_AGAIN
}

/// The flat file type code of a descriptor type. The flat interface has no
/// code for a FIFO, which is reported as unknown.
pub open spec fn spec_filetype(ty: DescriptorType) -> Filetype {
    match ty {
        DescriptorType::RegularFile => FILETYPE_REGULAR_FILE,
        DescriptorType::Directory => FILETYPE_DIRECTORY,
        DescriptorType::BlockDevice => FILETYPE_BLOCK_DEVICE,
        DescriptorType::CharacterDevice => FILETYPE_CHARACTER_DEVICE,
        DescriptorType::SymbolicLink => FILETYPE_SYMBOLIC_LINK,
        DescriptorType::Fifo => FILETYPE_UNKNOWN,
        DescriptorType::Unknown => FILETYPE_UNKNOWN,
        DescriptorType::Socket => FILETYPE_SOCKET_STREAM,
    }
}

/// Translates a descriptor type into its flat file type code. A socket has
/// two possible codes and no way to choose between them, so it is not
/// accepted.
pub fn filetype_from_descriptor_type(ty: DescriptorType) -> (r: Filetype)
    requires
        ty != DescriptorType::Socket,
    ensures
        r == spec_filetype(ty),
        r <= FILETYPE_SYMBOLIC_LINK,
{
    match ty {
        DescriptorType::RegularFile => FILETYPE_REGULAR_FILE,
        DescriptorType::Directory => FILETYPE_DIRECTORY,
        DescriptorType::BlockDevice => FILETYPE_BLOCK_DEVICE,
        DescriptorType::CharacterDevice => FILETYPE_CHARACTER_DEVICE,
        DescriptorType::SymbolicLink => FILETYPE_SYMBOLIC_LINK,
        DescriptorType::Fifo => FILETYPE_UNKNOWN,
        DescriptorType::Unknown => FILETYPE_UNKNOWN,
        DescriptorType::Socket => FILETYPE_UNKNOWN,
    }
}

/// The descriptor type of a flat file type code.
pub open spec fn spec_descriptor_type(filetype: Filetype) -> DescriptorType {
    if filetype == FILETYPE_REGULAR_FILE {
        DescriptorType::RegularFile
    } else if filetype == FILETYPE_DIRECTORY {
        DescriptorType::Directory
    } else if filetype == FILETYPE_BLOCK_DEVICE {
        DescriptorType::BlockDevice
    } else if filetype == FILETYPE_CHARACTER_DEVICE {
        DescriptorType::CharacterDevice
    } else if filetype == FILETYPE_SOCKET_STREAM || filetype == FILETYPE_SOCKET_DGRAM {
        DescriptorType::Socket
    } else if filetype == FILETYPE_SYMBOLIC_LINK {
        DescriptorType::SymbolicLink
    } else {
        DescriptorType::Unknown
    }
}

/// Translates a flat file type code into a descriptor type. Both socket codes
/// give `Socket`. Only the codes that the flat interface defines are accepted.
pub fn descriptor_type_from_filetype(filetype: Filetype) -> (r: DescriptorType)
    requires
        filetype <= FILETYPE_SYMBOLIC_LINK,
    ensures
        r == spec_descriptor_type(filetype),
{
    if filetype == FILETYPE_REGULAR_FILE {
        DescriptorType::RegularFile
    } else if filetype == FILETYPE_DIRECTORY {
        DescriptorType::Directory
    } else if filetype == FILETYPE_BLOCK_DEVICE {
        DescriptorType::BlockDevice
    } else if filetype == FILETYPE_CHARACTER_DEVICE {
        DescriptorType::CharacterDevice
    } else if filetype == FILETYPE_SOCKET_STREAM || filetype == FILETYPE_SOCKET_DGRAM {
        DescriptorType::Socket
    } else if filetype == FILETYPE_SYMBOLIC_LINK {
        DescriptorType::SymbolicLink
    } else {
        DescriptorType::Unknown
    }
}

/// A descriptor type that has a flat code of its own comes back unchanged from
/// a translation to the flat interface and back.
pub proof fn lemma_filetype_round_trip(ty: DescriptorType)
    requires
        ty != DescriptorType::Fifo,
    ensures
        spec_descriptor_type(spec_filetype(ty)) == ty,
{
}

/// The nanoseconds since the epoch that a wall-clock time stands for, held at
/// the largest timestamp where it would not fit.
pub open spec fn spec_timestamp(datetime: Datetime) -> Timestamp {
    let nanos = datetime.seconds as int * NANOS_PER_SECOND as int + datetime.nanoseconds as int;
    if nanos > u64::MAX as int {
        u64::MAX
    } else {
        nanos as u64
    }
}

/// Converts a wall-clock time into a flat timestamp, saturating at the largest
/// value.
pub fn datetime_to_timestamp(datetime: Datetime) -> (r: Timestamp)
    ensures
        r == spec_timestamp(datetime),
{
    let secs: u64 = match datetime.seconds.checked_mul(NANOS_PER_SECOND) {
        Some(n) => n,
        None => u64::MAX,
    };
    let nanos: u64 = datetime.nanoseconds as u64;
    nanos.saturating_add(secs)
}

/// The wall-clock time of a flat timestamp.
pub open spec fn spec_datetime(timestamp: Timestamp) -> Datetime {
    Datetime {
        seconds: timestamp / NANOS_PER_SECOND,
        nanoseconds: (timestamp % NANOS_PER_SECOND) as u32,
    }
}

/// Splits a flat timestamp into whole seconds and the nanoseconds within the
/// second.
pub fn timestamp_to_datetime(timestamp: Timestamp) -> (r: Datetime)
    ensures
        r == spec_datetime(timestamp),
        r.nanoseconds < NANOS_PER_SECOND,
{
    Datetime {
        seconds: timestamp / NANOS_PER_SECOND,
        nanoseconds: (timestamp % NANOS_PER_SECOND) as u32,
    }
}

/// A timestamp survives the conversion to a wall-clock time and back.
pub proof fn lemma_timestamp_round_trip(timestamp: Timestamp)
    ensures
        spec_timestamp(spec_datetime(timestamp)) == timestamp,
{
    let s = timestamp / NANOS_PER_SECOND;
    let n = timestamp % NANOS_PER_SECOND;
    assert(s as int * NANOS_PER_SECOND as int + n as int == timestamp as int) by {
        vstd::arithmetic::div_mod::lemma_fundamental_div_mod(
            timestamp as int,
            NANOS_PER_SECOND as int,
        );
    }
}

/// What is to become of one timestamp of a file: the flag `now` set together
/// with `set` asks for the current time, `set` alone for the given time, and
/// anything else leaves the timestamp as it is.
pub open spec fn spec_new_timestamp(
    time: Timestamp,
    fst_flags: Fstflags,
    set: Fstflags,
    now: Fstflags,
) -> NewTimestamp {
    if fst_flags & (set | now) == (set | now) {
        NewTimestamp::Now
    } else if fst_flags & set == set {
        NewTimestamp::Timestamp(spec_datetime(time))
    } else {
        NewTimestamp::NoChange
    }
}

/// Decides what `fd_filestat_set_times` and `path_filestat_set_times` do with
/// the access time.
pub fn atim_from_fstflags(atim: Timestamp, fst_flags: Fstflags) -> (r: NewTimestamp)
    ensures
        r == spec_new_timestamp(atim, fst_flags, FSTFLAGS_ATIM, FSTFLAGS_ATIM_NOW),
{
    if fst_flags & (FSTFLAGS_ATIM | FSTFLAGS_ATIM_NOW) == (FSTFLAGS_ATIM | FSTFLAGS_ATIM_NOW) {
        NewTimestamp::Now
    } else if fst_flags & FSTFLAGS_ATIM == FSTFLAGS_ATIM {
        NewTimestamp::Timestamp(timestamp_to_datetime(atim))
    } else {
        NewTimestamp::NoChange
    }
}

/// Decides what `fd_filestat_set_times` and `path_filestat_set_times` do with
/// the modification time.
pub fn mtim_from_fstflags(mtim: Timestamp, fst_flags: Fstflags) -> (r: NewTimestamp)
    ensures
        r == spec_new_timestamp(mtim, fst_flags, FSTFLAGS_MTIM, FSTFLAGS_MTIM_NOW),
{
    if fst_flags & (FSTFLAGS_MTIM | FSTFLAGS_MTIM_NOW) == (FSTFLAGS_MTIM | FSTFLAGS_MTIM_NOW) {
        NewTimestamp::Now
    } else if fst_flags & FSTFLAGS_MTIM == FSTFLAGS_MTIM {
        NewTimestamp::Timestamp(timestamp_to_datetime(mtim))
    } else {
        NewTimestamp::NoChange
    }
}

/// The advice that a flat advice code stands for.
pub open spec fn spec_advice(advice: u8) -> Option<Advice> {
    if advice == ADVICE_NORMAL {
        Some(Advice::Normal)
    } else if advice == ADVICE_SEQUENTIAL {
        Some(Advice::Sequential)
    } else if advice == ADVICE_RANDOM {
        Some(Advice::Random)
    } else if advice == ADVICE_WILLNEED {
        Some(Advice::WillNeed)
    } else if advice == ADVICE_DONTNEED {
        Some(Advice::DontNeed)
    } else if advice == ADVICE_NOREUSE {
        Some(Advice::NoReuse)
    } else {
        None
    }
}

/// Translates a flat advice code. A code that the flat interface does not
/// define gives `None`.
pub fn advice_from_code(advice: u8) -> (r: Option<Advice>)
    ensures
        r == spec_advice(advice),
        r is Some <==> advice <= ADVICE_NOREUSE,
{
    if advice == ADVICE_NORMAL {
        Some(Advice::Normal)
    } else if advice == ADVICE_SEQUENTIAL {
        Some(Advice::Sequential)
    } else if advice == ADVICE_RANDOM {
        Some(Advice::Random)
    } else if advice == ADVICE_WILLNEED {
        Some(Advice::WillNeed)
    } else if advice == ADVICE_DONTNEED {
        Some(Advice::DontNeed)
    } else if advice == ADVICE_NOREUSE {
        Some(Advice::NoReuse)
    } else {
        None
    }
}

/// Whether every bit of `bit` is set in `word`.
pub open spec fn has16(word: u16, bit: u16) -> bool {
    word & bit == bit
}

/// Whether every bit of `bit` is set in `word`.
pub open spec fn has32(word: u32, bit: u32) -> bool {
    word & bit == bit
}

/// Whether every bit of `bit` is set in `word`.
pub open spec fn has64(word: u64, bit: u64) -> bool {
    word & bit == bit
}

/// Translates flat lookup flags into path flags.
pub fn at_flags_from_lookupflags(flags: Lookupflags) -> (r: PathFlags)
    ensures
        r.symlink_follow == has32(flags, LOOKUPFLAGS_SYMLINK_FOLLOW),
{
    PathFlags {
        symlink_follow: flags & LOOKUPFLAGS_SYMLINK_FOLLOW == LOOKUPFLAGS_SYMLINK_FOLLOW,
    }
}

/// The flat lookup flags of path flags.
pub open spec fn spec_lookupflags(flags: PathFlags) -> Lookupflags {
    if flags.symlink_follow {
        LOOKUPFLAGS_SYMLINK_FOLLOW
    } else {
        0
    }
}

/// Translates path flags into flat lookup flags.
pub fn lookupflags_from_at_flags(flags: PathFlags) -> (r: Lookupflags)
    ensures
        r == spec_lookupflags(flags),
{
    if flags.symlink_follow {
        LOOKUPFLAGS_SYMLINK_FOLLOW
    } else {
        0
    }
}

/// Translates flat open flags into the open flags of the capability
/// interface.
pub fn o_flags_from_oflags(flags: Oflags) -> (r: OpenFlags)
    ensures
        r.create == has16(flags, OFLAGS_CREAT),
        r.directory == has16(flags, OFLAGS_DIRECTORY),
        r.exclusive == has16(flags, OFLAGS_EXCL),
        r.truncate == has16(flags, OFLAGS_TRUNC),
{
    OpenFlags {
        create: flags & OFLAGS_CREAT == OFLAGS_CREAT,
        directory: flags & OFLAGS_DIRECTORY == OFLAGS_DIRECTORY,
        exclusive: flags & OFLAGS_EXCL == OFLAGS_EXCL,
        truncate: flags & OFLAGS_TRUNC == OFLAGS_TRUNC,
    }
}

/// The flat code of one flag: the bit where the flag is set, nothing where it
/// is not.
pub open spec fn bit16(set: bool, bit: u16) -> int {
    if set {
        bit as int
    } else {
        0
    }
}

/// The flat code of one right: the bit where the right is held, nothing where
/// it is not.
pub open spec fn bit64(set: bool, bit: u64) -> int {
    if set {
        bit as int
    } else {
        0
    }
}

/// The flat open flags of the capability interface's open flags.
pub open spec fn spec_oflags(flags: OpenFlags) -> int {
    bit16(flags.create, OFLAGS_CREAT) + bit16(flags.directory, OFLAGS_DIRECTORY) + bit16(
        flags.exclusive,
        OFLAGS_EXCL,
    ) + bit16(flags.truncate, OFLAGS_TRUNC)
}

/// Translates the open flags of the capability interface into flat open flags.
pub fn oflags_from_o_flags(flags: OpenFlags) -> (r: Oflags)
    ensures
        r == spec_oflags(flags),
{
    let mut oflags: u16 = 0;
    if flags.create {
        oflags = oflags + OFLAGS_CREAT;
    }
    if flags.directory {
        oflags = oflags + OFLAGS_DIRECTORY;
    }
    if flags.exclusive {
        oflags = oflags + OFLAGS_EXCL;
    }
    if flags.truncate {
        oflags = oflags + OFLAGS_TRUNC;
    }
    oflags
}

/// Open flags come back unchanged from a translation to the flat interface and
/// back.
pub proof fn lemma_oflags_round_trip(flags: OpenFlags)
    ensures
        has16(spec_oflags(flags) as u16, OFLAGS_CREAT) == flags.create,
        has16(spec_oflags(flags) as u16, OFLAGS_DIRECTORY) == flags.directory,
        has16(spec_oflags(flags) as u16, OFLAGS_EXCL) == flags.exclusive,
        has16(spec_oflags(flags) as u16, OFLAGS_TRUNC) == flags.truncate,
{
    let a: u16 = bit16(flags.create, OFLAGS_CREAT) as u16;
    let b: u16 = bit16(flags.directory, OFLAGS_DIRECTORY) as u16;
    let c: u16 = bit16(flags.exclusive, OFLAGS_EXCL) as u16;
    let d: u16 = bit16(flags.truncate, OFLAGS_TRUNC) as u16;
    let x: u16 = spec_oflags(flags) as u16;
    assert(x == a + b + c + d);
    assert((x & 1 == 1) == (a == 1) && (x & 2 == 2) == (b == 2) && (x & 4 == 4) == (c == 4) && (x
        & 8 == 8) == (d == 8)) by (bit_vector)
        requires
            a == 0 || a == 1,
            b == 0 || b == 2,
            c == 0 || c == 4,
            d == 0 || d == 8,
            x == a + b + c + d,
    ;
}

/// Translates the rights and descriptor flags of a flat open into the
/// descriptor flags of the capability interface. The append flag is no
/// descriptor flag: the adapter keeps it itself.
pub fn descriptor_flags_from_flags(rights: Rights, fdflags: Fdflags) -> (r: DescriptorFlags)
    ensures
        r.read == has64(rights, RIGHTS_FD_READ),
        r.write == has64(rights, RIGHTS_FD_WRITE),
        r.file_integrity_sync == has16(fdflags, FDFLAGS_SYNC),
        r.data_integrity_sync == has16(fdflags, FDFLAGS_DSYNC),
        r.requested_write_sync == has16(fdflags, FDFLAGS_RSYNC),
        r.non_blocking == has16(fdflags, FDFLAGS_NONBLOCK),
{
    DescriptorFlags {
        read: rights & RIGHTS_FD_READ == RIGHTS_FD_READ,
        write: rights & RIGHTS_FD_WRITE == RIGHTS_FD_WRITE,
        non_blocking: fdflags & FDFLAGS_NONBLOCK == FDFLAGS_NONBLOCK,
        file_integrity_sync: fdflags & FDFLAGS_SYNC == FDFLAGS_SYNC,
        data_integrity_sync: fdflags & FDFLAGS_DSYNC == FDFLAGS_DSYNC,
        requested_write_sync: fdflags & FDFLAGS_RSYNC == FDFLAGS_RSYNC,
    }
}

/// Translates the flags of `fd_fdstat_set_flags` into descriptor flags. Only
/// the four synchronisation and blocking flags travel; read and write are
/// never asked for.
pub fn descriptor_flags_from_fdflags(fdflags: Fdflags) -> (r: DescriptorFlags)
    ensures
        !r.read,
        !r.write,
        r.file_integrity_sync == has16(fdflags, FDFLAGS_SYNC),
        r.data_integrity_sync == has16(fdflags, FDFLAGS_DSYNC),
        r.requested_write_sync == has16(fdflags, FDFLAGS_RSYNC),
        r.non_blocking == has16(fdflags, FDFLAGS_NONBLOCK),
{
    DescriptorFlags {
        read: false,
        write: false,
        non_blocking: fdflags & FDFLAGS_NONBLOCK == FDFLAGS_NONBLOCK,
        file_integrity_sync: fdflags & FDFLAGS_SYNC == FDFLAGS_SYNC,
        data_integrity_sync: fdflags & FDFLAGS_DSYNC == FDFLAGS_DSYNC,
        requested_write_sync: fdflags & FDFLAGS_RSYNC == FDFLAGS_RSYNC,
    }
}

/// The flat descriptor flags that descriptor flags and the adapter's own
/// append mode stand for.
pub open spec fn spec_fdflags(flags: DescriptorFlags, append: bool) -> int {
    bit16(append, FDFLAGS_APPEND) + bit16(flags.data_integrity_sync, FDFLAGS_DSYNC) + bit16(
        flags.non_blocking,
        FDFLAGS_NONBLOCK,
    ) + bit16(flags.requested_write_sync, FDFLAGS_RSYNC) + bit16(
        flags.file_integrity_sync,
        FDFLAGS_SYNC,
    )
}

/// The two access rights that descriptor flags stand for.
pub open spec fn spec_access_rights(flags: DescriptorFlags) -> int {
    bit64(flags.read, RIGHTS_FD_READ) + bit64(flags.write, RIGHTS_FD_WRITE)
}

/// Translates descriptor flags into flat descriptor flags and the access
/// rights they grant.
pub fn flags_from_descriptor_flags(flags: DescriptorFlags) -> (r: (Fdflags, Rights))
    ensures
        r.0 == spec_fdflags(flags, false),
        r.1 == spec_access_rights(flags),
{
    let mut fdflags: u16 = 0;
    let mut rights: u64 = 0;
    if flags.read {
        rights = rights + RIGHTS_FD_READ;
    }
    if flags.write {
        rights = rights + RIGHTS_FD_WRITE;
    }
    if flags.file_integrity_sync {
        fdflags = fdflags + FDFLAGS_SYNC;
    }
    if flags.data_integrity_sync {
        fdflags = fdflags + FDFLAGS_DSYNC;
    }
    if flags.requested_write_sync {
        fdflags = fdflags + FDFLAGS_RSYNC;
    }
    if flags.non_blocking {
        fdflags = fdflags + FDFLAGS_NONBLOCK;
    }
    (fdflags, rights)
}

/// Descriptor flags come back unchanged from a translation to flat flags and
/// rights and back.
pub proof fn lemma_descriptor_flags_round_trip(flags: DescriptorFlags)
    ensures
        has64(spec_access_rights(flags) as u64, RIGHTS_FD_READ) == flags.read,
        has64(spec_access_rights(flags) as u64, RIGHTS_FD_WRITE) == flags.write,
        has16(spec_fdflags(flags, false) as u16, FDFLAGS_SYNC) == flags.file_integrity_sync,
        has16(spec_fdflags(flags, false) as u16, FDFLAGS_DSYNC) == flags.data_integrity_sync,
        has16(spec_fdflags(flags, false) as u16, FDFLAGS_RSYNC) == flags.requested_write_sync,
        has16(spec_fdflags(flags, false) as u16, FDFLAGS_NONBLOCK) == flags.non_blocking,
        !has16(spec_fdflags(flags, false) as u16, FDFLAGS_APPEND),
{
    let r: u64 = bit64(flags.read, RIGHTS_FD_READ) as u64;
    let w: u64 = bit64(flags.write, RIGHTS_FD_WRITE) as u64;
    let y: u64 = spec_access_rights(flags) as u64;
    assert(y == r + w);
    assert((y & 0x2 == 0x2) == (r == 0x2) && (y & 0x40 == 0x40) == (w == 0x40)) by (bit_vector)
        requires
            r == 0 || r == 0x2,
            w == 0 || w == 0x40,
            y == r + w,
    ;
    let a: u16 = bit16(flags.data_integrity_sync, FDFLAGS_DSYNC) as u16;
    let b: u16 = bit16(flags.non_blocking, FDFLAGS_NONBLOCK) as u16;
    let c: u16 = bit16(flags.requested_write_sync, FDFLAGS_RSYNC) as u16;
    let d: u16 = bit16(flags.file_integrity_sync, FDFLAGS_SYNC) as u16;
    let x: u16 = spec_fdflags(flags, false) as u16;
    assert(x == a + b + c + d);
    assert((x & 2 == 2) == (a == 2) && (x & 4 == 4) == (b == 4) && (x & 8 == 8) == (c == 8) && (x
        & 16 == 16) == (d == 16) && x & 1 == 0) by (bit_vector)
        requires
            a == 0 || a == 2,
            b == 0 || b == 4,
            c == 0 || c == 8,
            d == 0 || d == 16,
            x == a + b + c + d,
    ;
}

/// The rights that `fd_fdstat_get` reports for a file: every right, but the
/// right to read only where the file was opened for reading and the right to
/// write only where it was opened for writing.
pub open spec fn spec_file_rights(flags: DescriptorFlags) -> int {
    RIGHTS_ALL as int - bit64(!flags.read, RIGHTS_FD_READ) - bit64(!flags.write, RIGHTS_FD_WRITE)
}

/// Computes the rights that `fd_fdstat_get` reports for a file.
pub fn file_rights(flags: DescriptorFlags) -> (r: Rights)
    ensures
        r == spec_file_rights(flags),
{
    let mut rights: u64 = RIGHTS_ALL;
    if !flags.read {
        rights = rights - RIGHTS_FD_READ;
    }
    if !flags.write {
        rights = rights - RIGHTS_FD_WRITE;
    }
    rights
}

/// Among the rights reported for a file, the right to read is present exactly
/// where the file is readable, the right to write exactly where it is
/// writable, and every other right always.
pub proof fn lemma_file_rights_bits(flags: DescriptorFlags)
    ensures
        has64(spec_file_rights(flags) as u64, RIGHTS_FD_READ) == flags.read,
        has64(spec_file_rights(flags) as u64, RIGHTS_FD_WRITE) == flags.write,
        (spec_file_rights(flags) as u64) | RIGHTS_FD_READ | RIGHTS_FD_WRITE == RIGHTS_ALL,
{
    let r: u64 = bit64(!flags.read, RIGHTS_FD_READ) as u64;
    let w: u64 = bit64(!flags.write, RIGHTS_FD_WRITE) as u64;
    let y: u64 = spec_file_rights(flags) as u64;
    assert(y == 0xffff_ffff_ffff_ffff - r - w);
    assert((y & 0x2 == 0x2) == (r == 0) && (y & 0x40 == 0x40) == (w == 0) && y | 0x2 | 0x40
        == 0xffff_ffff_ffff_ffff) by (bit_vector)
        requires
            r == 0 || r == 0x2,
            w == 0 || w == 0x40,
            y == 0xffff_ffff_ffff_ffffu64 - r - w,
    ;
}

} // verus!
