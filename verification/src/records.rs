//! The fixed-layout records that the guest reads and writes directly, with
//! their bytes as the flat interface lays them out for a 32-bit guest.

use vstd::prelude::*;
use crate::bytes::{
    from_le, le16, le32, le64, lemma_from_le_within, lemma_le32_round_trip,
    lemma_le64_round_trip, push_le16, push_le32, push_le64, push_zeros, read_le16, read_le32,
    read_le64, zeros,
};
use crate::capability::{
    DescriptorStat, DescriptorType,
};
use crate::flat::{
    Device, Dircookie, Errno, Eventrwflags, Eventtype, Fdflags, Filesize, Filetype, Inode,
    Linkcount, Rights, Size, Subclockflags, Timestamp, Userdata,
};
use crate::translate::{
    datetime_to_timestamp, filetype_from_descriptor_type, spec_filetype, spec_timestamp,
};

verus! {

/// The size of a directory entry record.
pub const DIRENT_SIZE: usize = 24;

/// The size of a descriptor status record.
pub const FDSTAT_SIZE: usize = 24;

/// The size of a file status record.
pub const FILESTAT_SIZE: usize = 64;

/// The size of an event record.
pub const EVENT_SIZE: usize = 32;

/// The size of a subscription record.
pub const SUBSCRIPTION_SIZE: usize = 48;

/// The size of a record that names a buffer.
pub const IOVEC_SIZE: usize = 8;

/// The size of a record that describes a preopened descriptor.
pub const PRESTAT_SIZE: usize = 8;

/// The head of one entry of a directory listing. The name follows it.
#[derive(Clone, Copy, PartialEq, Eq, Structural, Debug)]
pub struct Dirent {
    /// The cookie of the entry behind this one.
    pub d_next: Dircookie,
    /// The serial number of the file.
    pub d_ino: Inode,
    /// The length of the name.
    pub d_namlen: u32,
    /// The type of the file.
    pub d_type: Filetype,
}

impl Dirent {
    /// The bytes of the record: 24 of them.
    pub open spec fn bytes(&self) -> Seq<u8> {
        le64(self.d_next) + le64(self.d_ino) + le32(self.d_namlen) + seq![self.d_type] + zeros(3)
    }

    /// Writes the record out.
    pub fn to_bytes(&self) -> (r: Vec<u8>)
        ensures
            r@ == self.bytes(),
            r@.len() == DIRENT_SIZE,
    {
        let mut out: Vec<u8> = Vec::new();
        push_le64(&mut out, self.d_next);
        push_le64(&mut out, self.d_ino);
        push_le32(&mut out, self.d_namlen);
        out.push(self.d_type);
        push_zeros(&mut out, 3);
        assert(out@ =~= self.bytes());
        out
    }
}

impl Dirent {
    /// The record that the 24 bytes from `at` stand for.
    pub open spec fn spec_parse(bytes: Seq<u8>, at: int) -> Dirent {
        Dirent {
            d_next: from_le(bytes, at, 8) as u64,
            d_ino: from_le(bytes, at + 8, 8) as u64,
            d_namlen: from_le(bytes, at + 16, 4) as u32,
            d_type: bytes[at + 20],
        }
    }

    /// Reads the record that starts at `at`.
    pub fn parse(bytes: &Vec<u8>, at: usize) -> (r: Dirent)
        requires
            at + DIRENT_SIZE <= bytes.len(),
        ensures
            r == Self::spec_parse(bytes@, at as int),
    {
        Dirent {
            d_next: read_le64(bytes, at),
            d_ino: read_le64(bytes, at + 8),
            d_namlen: read_le32(bytes, at + 16),
            d_type: bytes[at + 20],
        }
    }

    /// A record that is written out and read again is the same record.
    pub proof fn lemma_round_trip(self)
        ensures
            Self::spec_parse(self.bytes(), 0) == self,
    {
        let b = self.bytes();
        lemma_le64_round_trip(self.d_next);
        lemma_le64_round_trip(self.d_ino);
        lemma_le32_round_trip(self.d_namlen);
        assert(b.subrange(0, 8) =~= le64(self.d_next));
        assert(b.subrange(8, 16) =~= le64(self.d_ino));
        assert(b.subrange(16, 20) =~= le32(self.d_namlen));
        lemma_from_le_within(b, le64(self.d_next), 0, 8);
        lemma_from_le_within(b, le64(self.d_ino), 8, 8);
        lemma_from_le_within(b, le32(self.d_namlen), 16, 4);
    }
}

/// The status of a descriptor.
#[derive(Clone, Copy, PartialEq, Eq, Structural, Debug)]
pub struct FdStat {
    /// The type of the file.
    pub fs_filetype: Filetype,
    /// The descriptor flags.
    pub fs_flags: Fdflags,
    /// The rights of the descriptor.
    pub fs_rights_base: Rights,
    /// The rights that descriptors opened through this one can have.
    pub fs_rights_inheriting: Rights,
}

impl FdStat {
    /// The bytes of the record: 24 of them.
    pub open spec fn bytes(&self) -> Seq<u8> {
        seq![self.fs_filetype, 0u8] + le16(self.fs_flags) + zeros(4) + le64(self.fs_rights_base)
            + le64(self.fs_rights_inheriting)
    }

    /// Writes the record out.
    pub fn to_bytes(&self) -> (r: Vec<u8>)
        ensures
            r@ == self.bytes(),
            r@.len() == FDSTAT_SIZE,
    {
        let mut out: Vec<u8> = Vec::new();
        out.push(self.fs_filetype);
        out.push(0u8);
        push_le16(&mut out, self.fs_flags);
        push_zeros(&mut out, 4);
        push_le64(&mut out, self.fs_rights_base);
        push_le64(&mut out, self.fs_rights_inheriting);
        assert(out@ =~= self.bytes());
        out
    }
}

/// The attributes of a file.
#[derive(Clone, Copy, PartialEq, Eq, Structural, Debug)]
pub struct Filestat {
    pub dev: Device,
    pub ino: Inode,
    pub filetype: Filetype,
    pub nlink: Linkcount,
    pub size: Filesize,
    pub atim: Timestamp,
    pub mtim: Timestamp,
    pub ctim: Timestamp,
}

impl Filestat {
    /// The bytes of the record: 64 of them.
    pub open spec fn bytes(&self) -> Seq<u8> {
        le64(self.dev) + le64(self.ino) + seq![self.filetype] + zeros(7) + le64(self.nlink) + le64(
            self.size,
        ) + le64(self.atim) + le64(self.mtim) + le64(self.ctim)
    }

    /// Writes the record out.
    pub fn to_bytes(&self) -> (r: Vec<u8>)
        ensures
            r@ == self.bytes(),
            r@.len() == FILESTAT_SIZE,
    {
        let mut out: Vec<u8> = Vec::new();
        push_le64(&mut out, self.dev);
        push_le64(&mut out, self.ino);
        out.push(self.filetype);
        push_zeros(&mut out, 7);
        push_le64(&mut out, self.nlink);
        push_le64(&mut out, self.size);
        push_le64(&mut out, self.atim);
        push_le64(&mut out, self.mtim);
        push_le64(&mut out, self.ctim);
        assert(out@ =~= self.bytes());
        out
    }

    /// The flat record of the attributes that the capability interface
    /// reports.
    pub open spec fn spec_from_stat(stat: DescriptorStat) -> Filestat {
        Filestat {
            dev: stat.device,
            ino: stat.inode,
            filetype: spec_filetype(stat.type_),
            nlink: stat.link_count,
            size: stat.size,
            atim: spec_timestamp(stat.data_access_timestamp),
            mtim: spec_timestamp(stat.data_modification_timestamp),
            ctim: spec_timestamp(stat.status_change_timestamp),
        }
    }

    /// Translates the attributes that the capability interface reports. A
    /// socket has no file type code and is not accepted.
    pub fn from_stat(stat: DescriptorStat) -> (r: Filestat)
        requires
            stat.type_ != DescriptorType::Socket,
        ensures
            r == Self::spec_from_stat(stat),
    {
        Filestat {
            dev: stat.device,
            ino: stat.inode,
            filetype: filetype_from_descriptor_type(stat.type_),
            nlink: stat.link_count,
            size: stat.size,
            atim: datetime_to_timestamp(stat.data_access_timestamp),
            mtim: datetime_to_timestamp(stat.data_modification_timestamp),
            ctim: datetime_to_timestamp(stat.status_change_timestamp),
        }
    }
}

/// What a preopened descriptor is: a directory, with the length of its name.
#[derive(Clone, Copy, PartialEq, Eq, Structural, Debug)]
pub struct Prestat {
    pub tag: u8,
    pub pr_name_len: Size,
}

impl Prestat {
    /// The bytes of the record: 8 of them.
    pub open spec fn bytes(&self) -> Seq<u8> {
        seq![self.tag] + zeros(3) + le32(self.pr_name_len as u32)
    }

    /// Writes the record out. The length of the name must fit the 32 bits
    /// that the guest has for it.
    pub fn to_bytes(&self) -> (r: Vec<u8>)
        requires
            self.pr_name_len <= u32::MAX,
        ensures
            r@ == self.bytes(),
            r@.len() == PRESTAT_SIZE,
    {
        let mut out: Vec<u8> = Vec::new();
        out.push(self.tag);
        push_zeros(&mut out, 3);
        push_le32(&mut out, self.pr_name_len as u32);
        assert(out@ =~= self.bytes());
        out
    }
}

/// What a read or write event reports.
#[derive(Clone, Copy, PartialEq, Eq, Structural, Debug)]
pub struct EventFdReadwrite {
    /// The number of bytes that can be read or written.
    pub nbytes: Filesize,
    /// The state of the descriptor.
    pub flags: Eventrwflags,
}

/// An event that occurred.
#[derive(Clone, Copy, PartialEq, Eq, Structural, Debug)]
pub struct Event {
    /// The value that came with the subscription.
    pub userdata: Userdata,
    /// The error that occurred while the subscription was processed, if any.
    pub error: Errno,
    /// The type of the event.
    pub type_: Eventtype,
    /// What a read or write event reports.
    pub fd_readwrite: EventFdReadwrite,
}

impl Event {
    /// The bytes of the record: 32 of them.
    pub open spec fn bytes(&self) -> Seq<u8> {
        le64(self.userdata) + le16(self.error) + seq![self.type_] + zeros(5) + le64(
            self.fd_readwrite.nbytes,
        ) + le16(self.fd_readwrite.flags) + zeros(6)
    }

    /// Writes the record out.
    pub fn to_bytes(&self) -> (r: Vec<u8>)
        ensures
            r@ == self.bytes(),
            r@.len() == EVENT_SIZE,
    {
        let mut out: Vec<u8> = Vec::new();
        push_le64(&mut out, self.userdata);
        push_le16(&mut out, self.error);
        out.push(self.type_);
        push_zeros(&mut out, 5);
        push_le64(&mut out, self.fd_readwrite.nbytes);
        push_le16(&mut out, self.fd_readwrite.flags);
        push_zeros(&mut out, 6);
        assert(out@ =~= self.bytes());
        out
    }
}

/// A request to be told of an event. The record holds a tag and, in the same
/// bytes, either a clock and a timeout or a descriptor: `id` is the clock of a
/// clock subscription and the descriptor of a read or write subscription.
#[derive(Clone, Copy, PartialEq, Eq, Structural, Debug)]
pub struct Subscription {
    /// A value that travels to the event.
    pub userdata: Userdata,
    /// The type of event asked for.
    pub tag: Eventtype,
    /// The clock, or the descriptor.
    pub id: u32,
    /// The timeout of a clock subscription.
    pub timeout: Timestamp,
    /// The precision of a clock subscription.
    pub precision: Timestamp,
    /// The flags of a clock subscription.
    pub flags: Subclockflags,
}

impl Subscription {
    /// The subscription that the 48 bytes from `at` stand for.
    pub open spec fn spec_parse(bytes: Seq<u8>, at: int) -> Subscription {
        Subscription {
            userdata: from_le(bytes, at, 8) as u64,
            tag: bytes[at + 8],
            id: from_le(bytes, at + 16, 4) as u32,
            timeout: from_le(bytes, at + 24, 8) as u64,
            precision: from_le(bytes, at + 32, 8) as u64,
            flags: from_le(bytes, at + 40, 2) as u16,
        }
    }

    /// Reads the subscription record that starts at `at`.
    pub fn parse(bytes: &Vec<u8>, at: usize) -> (r: Subscription)
        requires
            at + SUBSCRIPTION_SIZE <= bytes.len(),
        ensures
            r == Self::spec_parse(bytes@, at as int),
    {
        Subscription {
            userdata: read_le64(bytes, at),
            tag: bytes[at + 8],
            id: read_le32(bytes, at + 16),
            timeout: read_le64(bytes, at + 24),
            precision: read_le64(bytes, at + 32),
            flags: read_le16(bytes, at + 40),
        }
    }
}

/// A buffer in guest memory: its address and its length.
#[derive(Clone, Copy, PartialEq, Eq, Structural, Debug)]
pub struct Iovec {
    pub buf: usize,
    pub buf_len: Size,
}

impl Iovec {
    /// The buffer that the 8 bytes from `at` name: an address and a length of
    /// 32 bits each.
    pub open spec fn spec_parse(bytes: Seq<u8>, at: int) -> Iovec {
        Iovec { buf: from_le(bytes, at, 4) as usize, buf_len: from_le(bytes, at + 4, 4) as usize }
    }

    /// Reads the record that starts at `at`.
    pub fn parse(bytes: &Vec<u8>, at: usize) -> (r: Iovec)
        requires
            at + IOVEC_SIZE <= bytes.len(),
        ensures
            r == Self::spec_parse(bytes@, at as int),
    {
        Iovec { buf: read_le32(bytes, at) as usize, buf_len: read_le32(bytes, at + 4) as usize }
    }
}

/// Reads a list of `count` buffer records that lie one behind the other.
pub fn parse_iovecs(bytes: &Vec<u8>, count: usize) -> (r: Vec<Iovec>)
    requires
        count * IOVEC_SIZE <= bytes.len(),
    ensures
        r@.len() == count,
        forall|i: int| 0 <= i < count ==> r@[i] == Iovec::spec_parse(bytes@, i * IOVEC_SIZE),
{
    let mut list: Vec<Iovec> = Vec::new();
    let mut i: usize = 0;
    while i < count
        invariant
            i <= count,
            count * IOVEC_SIZE <= bytes.len(),
            list@.len() == i,
            forall|j: int| 0 <= j < i ==> list@[j] == Iovec::spec_parse(bytes@, j * IOVEC_SIZE),
        decreases count - i,
    {
        assert(i * IOVEC_SIZE + IOVEC_SIZE <= count * IOVEC_SIZE) by (nonlinear_arith)
            requires
                i < count,
        ;
        list.push(Iovec::parse(bytes, i * IOVEC_SIZE));
        i = i + 1;
    }
    list
}

/// Reads a list of `count` subscription records that lie one behind the
/// other.
pub fn parse_subscriptions(bytes: &Vec<u8>, count: usize) -> (r: Vec<Subscription>)
    requires
        count * SUBSCRIPTION_SIZE <= bytes.len(),
    ensures
        r@.len() == count,
        forall|i: int|
            0 <= i < count ==> r@[i] == Subscription::spec_parse(bytes@, i * SUBSCRIPTION_SIZE),
{
    let mut list: Vec<Subscription> = Vec::new();
    let mut i: usize = 0;
    while i < count
        invariant
            i <= count,
            count * SUBSCRIPTION_SIZE <= bytes.len(),
            list@.len() == i,
            forall|j: int|
                0 <= j < i ==> list@[j] == Subscription::spec_parse(bytes@, j * SUBSCRIPTION_SIZE),
        decreases count - i,
    {
        assert(i * SUBSCRIPTION_SIZE + SUBSCRIPTION_SIZE <= count * SUBSCRIPTION_SIZE)
            by (nonlinear_arith)
            requires
                i < count,
        ;
        list.push(Subscription::parse(bytes, i * SUBSCRIPTION_SIZE));
        i = i + 1;
    }
    list
}

/// Finds the first buffer of a list that is not empty: the one buffer that a
/// read or a write uses.
pub fn first_nonempty(iovs: &Vec<Iovec>) -> (r: Option<usize>)
    ensures
        match r {
            Some(i) => i < iovs@.len() && iovs@[i as int].buf_len != 0 && forall|j: int|
                0 <= j < i ==> iovs@[j].buf_len == 0,
            None => forall|j: int| 0 <= j < iovs@.len() ==> iovs@[j].buf_len == 0,
        },
{
    let mut i: usize = 0;
    while i < iovs.len()
        invariant
            i <= iovs@.len(),
            forall|j: int| 0 <= j < i ==> iovs@[j].buf_len == 0,
        decreases iovs@.len() - i,
    {
        if iovs[i].buf_len != 0 {
            return Some(i);
        }
        i = i + 1;
    }
    None
}

} // verus!
