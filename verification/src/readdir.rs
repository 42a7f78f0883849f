//! Reading a directory. The flat interface reads a listing piece by piece,
//! from any cookie, into buffers of any size; the capability interface yields
//! the entries of a listing once, front to back, without `.` and `..`. A
//! [`Readdir`] bridges the two for one call, and the [`DirentCache`] keeps the
//! listing open between calls.

use vstd::prelude::*;
use crate::arena::{
    DIRENT_CACHE, PATH_MAX,
};
use crate::bytes::{
    push_all, push_prefix,
};
use crate::capability::{
    DescriptorHandle, DescriptorStat, DescriptorType, DirectoryEntry, DirectoryEntryStream,
    ErrorCode, HostCall, ResultBuffer,
};
use crate::flat::{
    DIRCOOKIE_START, Dircookie, ERRNO_SUCCESS, Errno, FILETYPE_DIRECTORY, FILETYPE_UNKNOWN, Fd,
    Inode,
};
use crate::listing::listing;
use crate::records::Dirent;
use crate::translate::{
    errno_from_error_code, filetype_from_descriptor_type, spec_errno, spec_filetype,
};

verus! {

/// One entry of a listing as the guest reads it: the record and the name.
pub ghost struct Entry {
    pub dirent: Dirent,
    pub name: Seq<u8>,
}

/// One entry of a listing, held by the adapter.
#[derive(Debug)]
pub struct CachedEntry {
    pub dirent: Dirent,
    pub name: Vec<u8>,
}

impl View for CachedEntry {
    type V = Entry;

    open spec fn view(&self) -> Entry {
        Entry { dirent: self.dirent, name: self.name@ }
    }
}

/// The bytes of one entry: the record, then the name.
pub open spec fn wire(entry: Entry) -> Seq<u8> {
    entry.dirent.bytes() + entry.name
}

/// The bytes of a run of entries, one behind the other.
pub open spec fn wire_all(entries: Seq<Entry>) -> Seq<u8>
    decreases entries.len(),
{
    if entries.len() == 0 {
        Seq::empty()
    } else {
        wire_all(entries.drop_last()) + wire(entries.last())
    }
}

/// The first `n` bytes, or all of them where there are fewer.
pub open spec fn clipped(bytes: Seq<u8>, n: nat) -> Seq<u8> {
    if bytes.len() <= n {
        bytes
    } else {
        bytes.take(n as int)
    }
}

/// The cookie behind `cookie`.
pub open spec fn next_cookie(cookie: Dircookie) -> Dircookie {
    if cookie == u64::MAX {
        cookie
    } else {
        (cookie + 1) as u64
    }
}

/// The entry `.`, which stands at cookie 0 and refers to the directory itself.
pub open spec fn dot_entry(dot_inode: Inode) -> Entry {
    Entry {
        dirent: Dirent { d_next: 1, d_ino: dot_inode, d_namlen: 1, d_type: FILETYPE_DIRECTORY },
        name: seq![DOT],
    }
}

/// The entry `..`, which stands at cookie 1.
pub open spec fn dotdot_entry() -> Entry {
    Entry {
        dirent: Dirent { d_next: 2, d_ino: 0, d_namlen: 2, d_type: FILETYPE_DIRECTORY },
        name: seq![DOT, DOT],
    }
}

/// The entry that stands at `cookie` where the capability interface yields
/// `entry` for that place.
pub open spec fn host_entry(entry: DirectoryEntry, cookie: Dircookie) -> Entry {
    Entry {
        dirent: Dirent {
            d_next: next_cookie(cookie),
            d_ino: match entry.inode {
                Some(inode) => inode,
                None => 0,
            },
            d_namlen: entry.name@.len() as u32,
            d_type: spec_filetype(entry.type_),
        },
        name: entry.name@,
    }
}

/// The byte `.`.
pub const DOT: u8 = 46;

/// Adding an entry to a run adds its bytes.
pub proof fn lemma_wire_all_push(entries: Seq<Entry>, entry: Entry)
    ensures
        wire_all(entries.push(entry)) == wire_all(entries) + wire(entry),
{
    assert(entries.push(entry).drop_last() =~= entries);
}

/// The bytes of two runs, one behind the other, are the bytes of the first
/// followed by the bytes of the second.
pub proof fn lemma_wire_all_concat(a: Seq<Entry>, b: Seq<Entry>)
    ensures
        wire_all(a + b) == wire_all(a) + wire_all(b),
    decreases b.len(),
{
    if b.len() == 0 {
        assert(a + b =~= a);
        assert(wire_all(a) + wire_all(b) =~= wire_all(a));
    } else {
        lemma_wire_all_concat(a, b.drop_last());
        assert((a + b).drop_last() =~= a + b.drop_last());
        assert(wire_all(a + b) =~= wire_all(a) + wire_all(b));
    }
}

/// What the adapter keeps of a listing between two calls: the open listing,
/// the descriptor and cookie at which it can go on, and the entry that did not
/// fit the guest's buffer whole.
pub struct DirentCache {
    stream: Option<DirectoryEntryStream>,
    for_fd: Fd,
    cookie: Dircookie,
    cached_dirent: Dirent,
    path_data: Vec<u8>,
}

impl DirentCache {
    /// The open listing, if one is kept.
    pub closed spec fn stream(&self) -> Option<DirectoryEntryStream> {
        self.stream
    }

    /// The descriptor that the listing belongs to.
    pub closed spec fn for_fd(&self) -> Fd {
        self.for_fd
    }

    /// The cookie at which the listing can go on.
    pub closed spec fn cookie(&self) -> Dircookie {
        self.cookie
    }

    /// The entry that stands at that cookie.
    pub closed spec fn entry(&self) -> Entry {
        Entry { dirent: self.cached_dirent, name: self.path_data@ }
    }

    /// The name of the kept entry fits the cache.
    pub open spec fn wf(&self) -> bool {
        self.entry().name.len() <= DIRENT_CACHE
    }

    /// Whether a call for this descriptor and cookie can go on with the kept
    /// listing.
    pub open spec fn hits(&self, fd: Fd, cookie: Dircookie) -> bool {
        self.stream() is Some && self.for_fd() == fd && self.cookie() == cookie
    }

    /// A cache that keeps nothing.
    pub fn new() -> (r: Self)
        ensures
            r.wf(),
            r.stream() is None,
            r.for_fd() == 0,
            r.cookie() == DIRCOOKIE_START,
            r.entry() == (Entry {
                dirent: Dirent { d_next: 0, d_ino: 0, d_namlen: 0, d_type: FILETYPE_UNKNOWN },
                name: Seq::empty(),
            }),
    {
        DirentCache {
            stream: None,
            for_fd: 0,
            cookie: DIRCOOKIE_START,
            cached_dirent: Dirent { d_next: 0, d_ino: 0, d_namlen: 0, d_type: FILETYPE_UNKNOWN },
            path_data: Vec::new(),
        }
    }

    /// The open listing, if one is kept.
    pub fn kept_stream(&self) -> (r: Option<DirectoryEntryStream>)
        ensures
            r == self.stream(),
    {
        self.stream
    }

    /// Takes the kept listing out of the cache, whoever it belongs to, and
    /// says whether it is the one that a call for `fd` and `cookie` can go on
    /// with. Where it is, the kept entry comes with it.
    pub fn take_for(&mut self, fd: Fd, cookie: Dircookie) -> (r: (
        Option<DirectoryEntryStream>,
        bool,
        CachedEntry,
    ))
        requires
            old(self).wf(),
        ensures
            final(self).wf(),
            final(self).stream() is None,
            final(self).for_fd() == old(self).for_fd(),
            final(self).cookie() == old(self).cookie(),
            final(self).entry() == old(self).entry(),
            r.0 == old(self).stream(),
            r.1 == old(self).hits(fd, cookie),
            r.2@ == old(self).entry(),
    {
        let stream = self.stream;
        self.stream = None;
        let hit: bool = stream.is_some() && self.for_fd == fd && self.cookie == cookie;
        let mut name: Vec<u8> = Vec::new();
        push_all(&mut name, &self.path_data);
        assert(name@ =~= self.path_data@);
        (stream, hit, CachedEntry { dirent: self.cached_dirent, name })
    }

    /// Forgets the kept listing where it belongs to `fd`, and returns it so
    /// that it can be handed back: a closed descriptor's listing must not go
    /// on.
    pub fn invalidate(&mut self, fd: Fd) -> (r: Option<DirectoryEntryStream>)
        requires
            old(self).wf(),
        ensures
            final(self).wf(),
            final(self).for_fd() == old(self).for_fd(),
            final(self).cookie() == old(self).cookie(),
            final(self).entry() == old(self).entry(),
            old(self).for_fd() == fd ==> r == old(self).stream() && final(self).stream() is None,
            old(self).for_fd() != fd ==> r is None && final(self).stream() == old(self).stream(),
    {
        if fd == self.for_fd {
            let stream = self.stream;
            self.stream = None;
            stream
        } else {
            None
        }
    }

    /// Keeps a listing: the next call for `fd` at `cookie` goes on with
    /// `stream`, and finds `entry` as the entry at that cookie.
    pub fn store(
        &mut self,
        stream: DirectoryEntryStream,
        fd: Fd,
        cookie: Dircookie,
        entry: CachedEntry,
    )
        requires
            entry@.name.len() <= DIRENT_CACHE,
        ensures
            final(self).wf(),
            final(self).stream() == Some(stream),
            final(self).for_fd() == fd,
            final(self).cookie() == cookie,
            final(self).entry() == entry@,
            final(self).hits(fd, cookie),
    {
        self.stream = Some(stream);
        self.for_fd = fd;
        self.cookie = cookie;
        self.cached_dirent = entry.dirent;
        self.path_data = entry.name;
    }
}

/// The state of one call that reads a directory.
pub ghost struct ReaddirView {
    /// The descriptor that is read.
    pub fd: Fd,
    /// The handle of the directory.
    pub dir: DescriptorHandle,
    /// The cookie that the guest asked for.
    pub target: Dircookie,
    /// The size of the guest's buffer.
    pub buf_len: nat,
    /// The operation that the call waits for, or nothing once it has finished.
    pub request: Option<HostCall>,
    /// The result of the call once it has finished.
    pub errno: Errno,
    /// The open listing.
    pub stream: Option<DirectoryEntryStream>,
    /// The cookie of the entry that comes next.
    pub cursor: Dircookie,
    /// The serial number of the directory itself.
    pub dot_inode: Inode,
    /// An entry that was kept from an earlier call and comes before anything
    /// the listing yields.
    pub pending: Option<Entry>,
    /// What has been written to the guest's buffer.
    pub out: Seq<u8>,
    /// The entry that filled the buffer, with its cookie, where its name fits
    /// the cache.
    pub keep: Option<(Entry, Dircookie)>,
    /// The entries that were written, whole or in part.
    pub window: Seq<Entry>,
}

/// The request for the next entry of a listing. The name of the entry goes to
/// the adapter's path scratch buffer.
pub open spec fn next_request(stream: Option<DirectoryEntryStream>) -> Option<HostCall> {
    match stream {
        Some(stream) => Some(
            HostCall::ReadDirectoryEntry { stream, into: ResultBuffer::PathScratch },
        ),
        None => None,
    }
}

/// Writing one more entry: as much of it as the buffer still takes. Where the
/// buffer is full after that, the entry is kept for the cache if its name fits.
pub open spec fn spec_emit(v: ReaddirView, entry: Entry) -> ReaddirView {
    let out = clipped(v.out + wire(entry), v.buf_len);
    ReaddirView {
        out,
        window: v.window.push(entry),
        keep: if out.len() == v.buf_len && entry.name.len() <= DIRENT_CACHE {
            Some((entry, v.cursor))
        } else {
            None
        },
        cursor: next_cookie(v.cursor),
        ..v
    }
}

/// How many entries can be written without asking the listing: `.` and `..`
/// where the cursor stands on them, and an entry kept from an earlier call.
pub open spec fn at_hand(v: ReaddirView) -> nat {
    if v.cursor == 0 {
        3
    } else if v.cursor == 1 {
        2
    } else if v.pending is Some {
        1
    } else {
        0
    }
}

/// Writing what can be written without asking the listing: while the buffer
/// has room, `.` at cookie 0, `..` at cookie 1, then the entry kept from an
/// earlier call. The call finishes when the buffer is full, and otherwise asks
/// the listing for the next entry.
#[verifier::opaque]
pub open spec fn spec_advance(v: ReaddirView) -> ReaddirView
    decreases at_hand(v),
{
    if v.out.len() >= v.buf_len {
        ReaddirView { request: None, ..v }
    } else if v.cursor == 0 {
        spec_advance(spec_emit(v, dot_entry(v.dot_inode)))
    } else if v.cursor == 1 {
        spec_advance(spec_emit(v, dotdot_entry()))
    } else if v.pending is Some {
        spec_advance(spec_emit(ReaddirView { pending: None, ..v }, v.pending->0))
    } else {
        ReaddirView { request: next_request(v.stream), ..v }
    }
}

/// One step of writing what is at hand.
pub proof fn lemma_advance_unfold(v: ReaddirView)
    ensures
        spec_advance(v) == (if v.out.len() >= v.buf_len {
            ReaddirView { request: None, ..v }
        } else if v.cursor == 0 {
            spec_advance(spec_emit(v, dot_entry(v.dot_inode)))
        } else if v.cursor == 1 {
            spec_advance(spec_emit(v, dotdot_entry()))
        } else if v.pending is Some {
            spec_advance(spec_emit(ReaddirView { pending: None, ..v }, v.pending->0))
        } else {
            ReaddirView { request: next_request(v.stream), ..v }
        }),
{
    reveal(spec_advance);
}

/// The call has finished with this result.
pub open spec fn spec_fail(v: ReaddirView, errno: Errno) -> ReaddirView {
    ReaddirView { request: None, errno, keep: None, ..v }
}

/// The start of a call: the lookup of the descriptor has given `dir`, and the
/// cache has given up its listing, which is `stream` where the call can go on
/// with it. The call first asks for the attributes of the directory.
pub open spec fn spec_begin(
    fd: Fd,
    target: Dircookie,
    buf_len: nat,
    dir: Result<DescriptorHandle, Errno>,
    stream: Option<DirectoryEntryStream>,
    kept: Entry,
) -> ReaddirView {
    let v = ReaddirView {
        fd,
        dir: match dir {
            Ok(handle) => handle,
            Err(_) => 0,
        },
        target,
        buf_len,
        request: None,
        errno: ERRNO_SUCCESS,
        stream,
        cursor: target,
        dot_inode: 0,
        pending: if stream is Some && target >= 2 {
            Some(kept)
        } else {
            None
        },
        out: Seq::empty(),
        keep: None,
        window: Seq::empty(),
    };
    match dir {
        Ok(handle) => ReaddirView { request: Some(HostCall::Stat { fd: handle }), ..v },
        Err(errno) => spec_fail(v, errno),
    }
}

/// The attributes of the directory have arrived. With a listing to go on
/// with, the call writes what it can; without one it opens a new listing.
pub open spec fn spec_on_stat(
    v: ReaddirView,
    reply: Result<DescriptorStat, ErrorCode>,
) -> ReaddirView {
    match reply {
        Err(err) => spec_fail(v, spec_errno(err)),
        Ok(stat) => {
            let v = ReaddirView { dot_inode: stat.inode, ..v };
            if v.stream is Some {
                spec_advance(v)
            } else {
                ReaddirView { request: Some(HostCall::ReadDirectory { fd: v.dir }), ..v }
            }
        },
    }
}

/// A new listing has been opened. It stands at cookie 2; `.` and `..` are
/// not part of it. The call skips to the cookie asked for and then writes what
/// it can.
pub open spec fn spec_on_open(
    v: ReaddirView,
    reply: Result<DirectoryEntryStream, ErrorCode>,
) -> ReaddirView {
    match reply {
        Err(err) => spec_fail(v, spec_errno(err)),
        Ok(stream) => {
            let v = ReaddirView { stream: Some(stream), ..v };
            if v.target > 2 {
                ReaddirView { cursor: 2, request: next_request(v.stream), ..v }
            } else {
                spec_advance(ReaddirView { cursor: v.target, ..v })
            }
        },
    }
}

/// The listing has answered. An entry before the cookie asked for is skipped;
/// any other is written. At the end of the listing the call finishes.
pub open spec fn spec_on_entry(
    v: ReaddirView,
    reply: Result<Option<DirectoryEntry>, ErrorCode>,
) -> ReaddirView {
    match reply {
        Err(err) => spec_fail(v, spec_errno(err)),
        Ok(None) => ReaddirView { request: None, ..v },
        Ok(Some(entry)) => {
            if v.cursor < v.target {
                let v = ReaddirView { cursor: next_cookie(v.cursor), ..v };
                if v.cursor < v.target {
                    v
                } else {
                    spec_advance(v)
                }
            } else {
                spec_advance(spec_emit(v, host_entry(entry, v.cursor)))
            }
        },
    }
}

/// What is written is the bytes of the entries written, cut at the size of
/// the buffer; and an entry is kept for the cache only if its name fits.
pub open spec fn view_wf(v: ReaddirView) -> bool {
    &&& v.out == clipped(wire_all(v.window), v.buf_len)
    &&& v.keep is Some ==> (v.keep->0).0.name.len() <= DIRENT_CACHE
    &&& v.pending is Some ==> v.cursor >= 2 && v.stream is Some
    &&& (v.request matches Some(call) ==> match call {
        HostCall::ReadDirectoryEntry { stream, into } => v.stream == Some(stream)
            && v.pending is None && v.cursor >= 2 && (v.cursor < v.target || v.out.len()
            < v.buf_len),
        HostCall::Stat { fd } => v.out.len() == 0 && v.window.len() == 0 && v.keep is None,
        HostCall::ReadDirectory { fd } => v.out.len() == 0 && v.window.len() == 0 && v.keep
            is None && v.stream is None && v.pending is None,
        _ => false,
    })
}

/// Writing one more entry into a buffer that has room keeps the call well
/// formed.
pub proof fn lemma_emit_wf(v: ReaddirView, entry: Entry)
    requires
        v.out == clipped(wire_all(v.window), v.buf_len),
        v.out.len() < v.buf_len,
    ensures
        spec_emit(v, entry).out == clipped(wire_all(spec_emit(v, entry).window), v.buf_len),
{
    lemma_wire_all_push(v.window, entry);
}

/// Writing what is at hand keeps the call well formed.
pub proof fn lemma_advance_wf(v: ReaddirView)
    requires
        v.out == clipped(wire_all(v.window), v.buf_len),
        v.keep is Some ==> (v.keep->0).0.name.len() <= DIRENT_CACHE,
        v.pending is Some ==> v.cursor >= 2 && v.stream is Some,
        v.stream is Some,
    ensures
        view_wf(spec_advance(v)),
        spec_advance(v).request is Some ==> spec_advance(v).request == next_request(v.stream),
    decreases at_hand(v),
{
    lemma_advance_unfold(v);
    if v.out.len() >= v.buf_len {
    } else if v.cursor == 0 {
        lemma_emit_wf(v, dot_entry(v.dot_inode));
        lemma_advance_wf(spec_emit(v, dot_entry(v.dot_inode)));
    } else if v.cursor == 1 {
        lemma_emit_wf(v, dotdot_entry());
        lemma_advance_wf(spec_emit(v, dotdot_entry()));
    } else if v.pending is Some {
        let w = ReaddirView { pending: None, ..v };
        lemma_emit_wf(w, v.pending->0);
        lemma_advance_wf(spec_emit(w, v.pending->0));
    } else {
    }
}

/// One call that reads a directory, from its start to its result. It says
/// which operation of the capability interface it waits for, takes the
/// outcome, and says what it waits for next, until it has finished.
pub struct Readdir {
    fd: Fd,
    dir: DescriptorHandle,
    target: Dircookie,
    buf_len: usize,
    request: Option<HostCall>,
    errno: Errno,
    stream: Option<DirectoryEntryStream>,
    cursor: Dircookie,
    dot_inode: Inode,
    pending: Option<CachedEntry>,
    out: Vec<u8>,
    keep: Option<(CachedEntry, Dircookie)>,
    window: Ghost<Seq<Entry>>,
}

/// What a call that reads a directory leaves behind.
#[derive(Debug)]
pub struct ReaddirOutcome {
    /// The result of the call.
    pub errno: Errno,
    /// The bytes for the guest's buffer. Their number is what the call
    /// reports as used.
    pub bytes: Vec<u8>,
    /// The listing that is to be handed back, where the call does not keep it.
    pub release: Option<DirectoryEntryStream>,
}

impl View for Readdir {
    type V = ReaddirView;

    closed spec fn view(&self) -> ReaddirView {
        ReaddirView {
            fd: self.fd,
            dir: self.dir,
            target: self.target,
            buf_len: self.buf_len as nat,
            request: self.request,
            errno: self.errno,
            stream: self.stream,
            cursor: self.cursor,
            dot_inode: self.dot_inode,
            pending: match self.pending {
                Some(entry) => Some(entry@),
                None => None,
            },
            out: self.out@,
            keep: match self.keep {
                Some((entry, cookie)) => Some((entry@, cookie)),
                None => None,
            },
            window: self.window@,
        }
    }
}

/// Whether an answer of the listing can be taken: the name of an entry lies
/// in the path scratch buffer, and the entry is no socket, for which the flat
/// interface has no one file type.
pub open spec fn entry_reply_ok(reply: Result<Option<DirectoryEntry>, ErrorCode>) -> bool {
    reply matches Ok(Some(entry)) ==> entry.name@.len() <= PATH_MAX && entry.type_
        != DescriptorType::Socket
}

impl Readdir {
    /// The call is well formed.
    pub open spec fn wf(&self) -> bool {
        view_wf(self@)
    }

    /// Starts a call. `dir` is what the lookup of the descriptor gave; `stream`
    /// is the listing that the cache kept for this descriptor and cookie, if it
    /// kept one, and `kept` the entry that it kept with it.
    pub fn begin(
        fd: Fd,
        target: Dircookie,
        buf_len: usize,
        dir: Result<DescriptorHandle, Errno>,
        stream: Option<DirectoryEntryStream>,
        kept: CachedEntry,
    ) -> (r: Readdir)
        ensures
            r@ == spec_begin(fd, target, buf_len as nat, dir, stream, kept@),
            r.wf(),
    {
        let pending: Option<CachedEntry> = if stream.is_some() && target >= 2 {
            Some(kept)
        } else {
            None
        };
        let (handle, request, errno): (DescriptorHandle, Option<HostCall>, Errno) = match dir {
            Ok(handle) => (handle, Some(HostCall::Stat { fd: handle }), ERRNO_SUCCESS),
            Err(errno) => (0, None, errno),
        };
        Readdir {
            fd,
            dir: handle,
            target,
            buf_len,
            request,
            errno,
            stream,
            cursor: target,
            dot_inode: 0,
            pending,
            out: Vec::new(),
            keep: None,
            window: Ghost(Seq::empty()),
        }
    }

    /// The operation that the call waits for, or nothing once it has
    /// finished.
    pub fn request(&self) -> (r: Option<HostCall>)
        ensures
            r == self@.request,
    {
        self.request
    }

    fn fail(&mut self, errno: Errno)
        ensures
            final(self)@ == spec_fail(old(self)@, errno),
    {
        self.request = None;
        self.errno = errno;
        self.keep = None;
    }

    fn emit(&mut self, entry: CachedEntry)
        requires
            old(self)@.out.len() < old(self)@.buf_len,
        ensures
            final(self)@ == spec_emit(old(self)@, entry@),
    {
        let head: Vec<u8> = entry.dirent.to_bytes();
        let space: usize = self.buf_len - self.out.len();
        let n1: usize = if space < head.len() {
            space
        } else {
            head.len()
        };
        push_prefix(&mut self.out, &head, n1);
        let left: usize = self.buf_len - self.out.len();
        let n2: usize = if left < entry.name.len() {
            left
        } else {
            entry.name.len()
        };
        push_prefix(&mut self.out, &entry.name, n2);
        proof {
            assert(self.out@ =~= clipped(old(self)@.out + wire(entry@), old(self)@.buf_len));
        }
        let full: bool = self.out.len() == self.buf_len;
        let cookie: Dircookie = self.cursor;
        if self.cursor < u64::MAX {
            self.cursor = self.cursor + 1;
        }
        self.window = Ghost(self.window@.push(entry@));
        if full && entry.name.len() <= DIRENT_CACHE {
            self.keep = Some((entry, cookie));
        } else {
            self.keep = None;
        }
    }

    fn emit_dot(&mut self)
        requires
            old(self)@.out.len() < old(self)@.buf_len,
        ensures
            final(self)@ == spec_emit(old(self)@, dot_entry(old(self)@.dot_inode)),
    {
        let mut name: Vec<u8> = Vec::new();
        name.push(DOT);
        let entry = CachedEntry {
            dirent: Dirent {
                d_next: 1,
                d_ino: self.dot_inode,
                d_namlen: 1,
                d_type: FILETYPE_DIRECTORY,
            },
            name,
        };
        assert(name@ =~= seq![DOT]);
        assert(entry@ == dot_entry(self.dot_inode));
        self.emit(entry);
    }

    fn emit_dotdot(&mut self)
        requires
            old(self)@.out.len() < old(self)@.buf_len,
        ensures
            final(self)@ == spec_emit(old(self)@, dotdot_entry()),
    {
        let mut name: Vec<u8> = Vec::new();
        name.push(DOT);
        name.push(DOT);
        let entry = CachedEntry {
            dirent: Dirent { d_next: 2, d_ino: 0, d_namlen: 2, d_type: FILETYPE_DIRECTORY },
            name,
        };
        assert(name@ =~= seq![DOT, DOT]);
        assert(entry@ == dotdot_entry());
        self.emit(entry);
    }

    fn emit_pending(&mut self)
        requires
            old(self)@.out.len() < old(self)@.buf_len,
            old(self)@.pending is Some,
        ensures
            final(self)@ == spec_emit(
                ReaddirView { pending: None, ..old(self)@ },
                old(self)@.pending->0,
            ),
    {
        match self.pending.take() {
            Some(entry) => {
                self.emit(entry);
            },
            None => {},
        }
    }

    fn ask_next(&mut self)
        ensures
            final(self)@ == (ReaddirView {
                request: next_request(old(self)@.stream),
                ..old(self)@
            }),
    {
        self.request = match self.stream {
            Some(stream) => Some(
                HostCall::ReadDirectoryEntry { stream, into: ResultBuffer::PathScratch },
            ),
            None => None,
        };
    }

    fn end(&mut self)
        ensures
            final(self)@ == (ReaddirView { request: None, ..old(self)@ }),
    {
        self.request = None;
    }

    /// One step of writing what is at hand; says whether more is at hand.
    fn step(&mut self) -> (more: bool)
        ensures
            spec_advance(final(self)@) == spec_advance(old(self)@),
            !more ==> final(self)@ == spec_advance(old(self)@),
            more ==> at_hand(final(self)@) < at_hand(old(self)@),
    {
        proof {
            lemma_advance_unfold(self@);
        }
        if self.out.len() >= self.buf_len {
            self.end();
            proof {
                lemma_advance_unfold(self@);
            }
            false
        } else if self.cursor == 0 {
            self.emit_dot();
            true
        } else if self.cursor == 1 {
            self.emit_dotdot();
            true
        } else if self.pending.is_some() {
            self.emit_pending();
            true
        } else {
            self.ask_next();
            proof {
                lemma_advance_unfold(self@);
            }
            false
        }
    }

    fn advance(&mut self)
        ensures
            final(self)@ == spec_advance(old(self)@),
    {
        let mut more: bool = true;
        while more
            invariant
                spec_advance(self@) == spec_advance(old(self)@),
                !more ==> self@ == spec_advance(old(self)@),
            decreases
                    (if more {
                        1nat
                    } else {
                        0nat
                    }),
                    at_hand(self@),
        {
            more = self.step();
        }
    }

    /// Takes the attributes of the directory.
    pub fn on_stat(&mut self, reply: Result<DescriptorStat, ErrorCode>)
        requires
            old(self).wf(),
            old(self)@.request == Some(HostCall::Stat { fd: old(self)@.dir }),
        ensures
            final(self)@ == spec_on_stat(old(self)@, reply),
            final(self).wf(),
    {
        match reply {
            Err(err) => {
                self.fail(errno_from_error_code(err));
            },
            Ok(stat) => {
                self.dot_inode = stat.inode;
                if self.stream.is_some() {
                    proof {
                        lemma_advance_wf(self@);
                    }
                    self.advance();
                } else {
                    self.request = Some(HostCall::ReadDirectory { fd: self.dir });
                }
            },
        }
    }

    /// Takes the listing that was opened.
    pub fn on_open(&mut self, reply: Result<DirectoryEntryStream, ErrorCode>)
        requires
            old(self).wf(),
            old(self)@.request == Some(HostCall::ReadDirectory { fd: old(self)@.dir }),
        ensures
            final(self)@ == spec_on_open(old(self)@, reply),
            final(self).wf(),
    {
        match reply {
            Err(err) => {
                self.fail(errno_from_error_code(err));
            },
            Ok(stream) => {
                self.stream = Some(stream);
                if self.target > 2 {
                    self.cursor = 2;
                    self.request = Some(
                        HostCall::ReadDirectoryEntry { stream, into: ResultBuffer::PathScratch },
                    );
                } else {
                    self.cursor = self.target;
                    proof {
                        lemma_advance_wf(self@);
                    }
                    self.advance();
                }
            },
        }
    }

    /// Takes the answer of the listing: an entry, the end of the listing, or
    /// an error.
    pub fn on_entry(&mut self, reply: Result<Option<DirectoryEntry>, ErrorCode>)
        requires
            old(self).wf(),
            old(self)@.request == next_request(old(self)@.stream),
            old(self)@.request is Some,
            entry_reply_ok(reply),
        ensures
            final(self)@ == spec_on_entry(old(self)@, reply),
            final(self).wf(),
    {
        match reply {
            Err(err) => {
                self.fail(errno_from_error_code(err));
            },
            Ok(None) => {
                self.request = None;
            },
            Ok(Some(entry)) => {
                if self.cursor < self.target {
                    self.cursor = self.cursor + 1;
                    if self.cursor >= self.target {
                        proof {
                            lemma_advance_wf(self@);
                        }
                        self.advance();
                    }
                } else {
                    let ghost shown = host_entry(entry, self.cursor);
                    let dirent = Dirent {
                        d_next: if self.cursor < u64::MAX {
                            self.cursor + 1
                        } else {
                            self.cursor
                        },
                        d_ino: match entry.inode {
                            Some(inode) => inode,
                            None => 0,
                        },
                        d_namlen: entry.name.len() as u32,
                        d_type: filetype_from_descriptor_type(entry.type_),
                    };
                    let cached = CachedEntry { dirent, name: entry.name };
                    assert(cached@ == shown);
                    proof {
                        lemma_emit_wf(self@, shown);
                        lemma_advance_wf(spec_emit(self@, shown));
                    }
                    self.emit(cached);
                    self.advance();
                }
            },
        }
    }

    /// The descriptor that is read.
    pub fn descriptor(&self) -> (r: Fd)
        ensures
            r == self@.fd,
    {
        self.fd
    }

    /// The open listing.
    pub fn listing(&self) -> (r: Option<DirectoryEntryStream>)
        ensures
            r == self@.stream,
    {
        self.stream
    }

    /// Ends the call: gives its result, the bytes for the guest, and the
    /// entry to keep with its cookie where the open listing is to be kept.
    pub fn finish(self) -> (r: (ReaddirOutcome, Option<(CachedEntry, Dircookie)>))
        requires
            self.wf(),
            self@.request is None,
        ensures
            r.0.errno == self@.errno,
            r.0.bytes@ == self@.out,
            r.0.bytes@ == clipped(wire_all(self@.window), self@.buf_len),
            match r.1 {
                Some((entry, cookie)) => self@.errno == ERRNO_SUCCESS && self@.stream is Some
                    && self@.keep == Some((entry@, cookie)) && r.0.release is None
                    && entry@.name.len() <= DIRENT_CACHE,
                None => r.0.release == self@.stream && (self@.errno != ERRNO_SUCCESS
                    || self@.stream is None || self@.keep is None),
            },
    {
        let keep = if self.errno == ERRNO_SUCCESS && self.stream.is_some() {
            self.keep
        } else {
            None
        };
        let release = if keep.is_some() {
            None
        } else {
            self.stream
        };
        (ReaddirOutcome { errno: self.errno, bytes: self.out, release }, keep)
    }
}

} // verus!
