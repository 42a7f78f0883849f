//! What reading a directory gives, call by call: a call that is fed from the
//! listing of the host returns the bytes of the listing from its cookie on, cut
//! at the size of the buffer, whether it opens the listing itself or goes on
//! with the listing that an earlier call left in the directory cache.

use vstd::prelude::*;
use crate::capability::{
    DescriptorHandle, DescriptorStat, DirectoryEntry, DirectoryEntryStream,
};
use crate::flat::{
    Dircookie, ERRNO_SUCCESS, Fd, Inode,
};
use crate::readdir::{
    Entry, ReaddirView, at_hand, clipped, dot_entry, dotdot_entry, host_entry,
    lemma_advance_unfold, lemma_wire_all_concat, lemma_wire_all_push, next_cookie,
    next_request, spec_advance, spec_begin, spec_emit, spec_on_entry, spec_on_open,
    spec_on_stat, wire_all,
};

verus! {

/// The listing of a directory as the guest reads it: `.`, `..`, and then the
/// entries that the host yields, each with the cookie of the entry behind it.
pub open spec fn listing(dot_inode: Inode, dir: Seq<DirectoryEntry>) -> Seq<Entry> {
    seq![dot_entry(dot_inode), dotdot_entry()] + Seq::new(
        dir.len(),
        |i: int| host_entry(dir[i], (i + 2) as u64),
    )
}

/// What a call returns that reads a directory from `cookie` on into a buffer
/// of `buf_len` bytes: the bytes of the entries from that cookie on, cut at
/// the size of the buffer; nothing for a cookie behind the end.
pub open spec fn spec_readdir(
    dot_inode: Inode,
    dir: Seq<DirectoryEntry>,
    cookie: Dircookie,
    buf_len: nat,
) -> Seq<u8> {
    let all = listing(dot_inode, dir);
    if cookie <= all.len() {
        clipped(wire_all(all.skip(cookie as int)), buf_len)
    } else {
        Seq::empty()
    }
}

/// What the host has yet to yield of a listing of which the guest has taken
/// the entries before `cookie`, and of which the entry at `cookie` is kept
/// beside it: the entries behind that one, or all of them while the guest has
/// not come past `.` and `..`.
pub open spec fn rest_at(dir: Seq<DirectoryEntry>, cookie: Dircookie) -> Seq<DirectoryEntry> {
    if cookie >= 2 {
        dir.skip(cookie - 1)
    } else {
        dir
    }
}

/// A call that is fed from what the host has yet to yield: each time it asks
/// for the next entry it gets the first of `rest`, or the end of the listing.
/// Gives the call as it ends up and what the host has then yet to yield.
#[verifier::opaque]
pub open spec fn spec_feed(
    v: ReaddirView,
    rest: Seq<DirectoryEntry>,
) -> (ReaddirView, Seq<DirectoryEntry>)
    decreases rest.len(),
{
    if v.request is Some && v.request == next_request(v.stream) {
        if rest.len() == 0 {
            (spec_on_entry(v, Ok(None)), rest)
        } else {
            spec_feed(spec_on_entry(v, Ok(Some(rest[0]))), rest.drop_first())
        }
    } else {
        (v, rest)
    }
}

/// Whether a call has ended as it should: successfully, with the bytes of the
/// listing from its cookie on; and where it keeps an entry for the directory
/// cache, that entry is the one at the cookie it is kept for, and the host has
/// yet to yield what lies behind it.
#[verifier::opaque]
pub open spec fn read_rightly(
    v: ReaddirView,
    end: (ReaddirView, Seq<DirectoryEntry>),
    dir: Seq<DirectoryEntry>,
) -> bool {
    let all = listing(v.dot_inode, dir);
    &&& end.0.request is None
    &&& end.0.errno == ERRNO_SUCCESS
    &&& end.0.stream == v.stream
    &&& end.0.fd == v.fd
    &&& end.0.buf_len == v.buf_len
    &&& end.0.out == spec_readdir(v.dot_inode, dir, v.target, v.buf_len)
    &&& (end.0.keep matches Some(kept) ==> kept.1 < all.len() && kept.0 == all[kept.1 as int]
        && end.1 == rest_at(dir, kept.1))
}

/// The bytes of a run that fills a buffer are, cut at the size of the buffer,
/// the bytes of any run that starts with it.
pub proof fn lemma_clipped_prefix(head: Seq<Entry>, tail: Seq<Entry>, buf_len: nat)
    requires
        wire_all(head).len() >= buf_len,
    ensures
        clipped(wire_all(head + tail), buf_len) == clipped(wire_all(head), buf_len),
{
    lemma_wire_all_concat(head, tail);
    assert(clipped(wire_all(head) + wire_all(tail), buf_len) =~= clipped(wire_all(head), buf_len));
}

/// Entry `i` of a listing: `.`, `..`, or the entry that the host yields in
/// that place.
pub proof fn lemma_listing_at(dot_inode: Inode, dir: Seq<DirectoryEntry>, i: int)
    requires
        0 <= i < dir.len() + 2,
    ensures
        listing(dot_inode, dir).len() == dir.len() + 2,
        i == 0 ==> listing(dot_inode, dir)[i] == dot_entry(dot_inode),
        i == 1 ==> listing(dot_inode, dir)[i] == dotdot_entry(),
        i >= 2 ==> listing(dot_inode, dir)[i] == host_entry(dir[i - 2], i as u64),
{
}

/// Whether two views are of the same successful call on an open listing.
pub open spec fn same_call(v: ReaddirView, origin: ReaddirView) -> bool {
    &&& v.fd == origin.fd
    &&& v.stream == origin.stream
    &&& v.stream is Some
    &&& v.buf_len == origin.buf_len
    &&& v.target == origin.target
    &&& v.dot_inode == origin.dot_inode
    &&& v.errno == ERRNO_SUCCESS
}

/// What the host has yet to yield when the call stands at `cursor`: with an
/// entry kept beside the call, the entries behind that one; otherwise the
/// entries from the cursor on, where `.` and `..` are none of the host's.
pub open spec fn yet_to_yield(
    dir: Seq<DirectoryEntry>,
    cursor: Dircookie,
    kept: bool,
) -> Seq<DirectoryEntry> {
    if kept {
        dir.skip(cursor - 1)
    } else if cursor >= 2 {
        dir.skip(cursor - 2)
    } else {
        dir
    }
}

/// Whether a call reads the listing of `dir` as it should, with `rest` what
/// the host has yet to yield: before its cookie it has written nothing; from
/// its cookie on it has written the entries up to where it stands, cut at the
/// size of its buffer; and an entry that it keeps is the last one written.
#[verifier::opaque]
pub open spec fn on_track(
    v: ReaddirView,
    origin: ReaddirView,
    dir: Seq<DirectoryEntry>,
    rest: Seq<DirectoryEntry>,
) -> bool {
    let all = listing(origin.dot_inode, dir);
    &&& same_call(v, origin)
    &&& v.cursor <= all.len()
    &&& rest == yet_to_yield(dir, v.cursor, v.pending is Some)
    &&& (v.pending matches Some(kept) ==> 2 <= v.cursor < all.len() && kept == all[v.cursor as int]
        && v.cursor == v.target && v.keep is None)
    &&& if v.cursor < v.target {
        v.window.len() == 0 && v.out.len() == 0 && v.keep is None && v.pending is None && v.cursor
            >= 2
    } else {
        &&& v.window == all.subrange(v.target as int, v.cursor as int)
        &&& v.out == clipped(wire_all(v.window), v.buf_len)
        &&& (v.keep matches Some(kept) ==> kept.1 + 1 == v.cursor && v.target <= kept.1 && kept.0
            == all[kept.1 as int] && v.out.len() >= v.buf_len)
    }
}

/// Whether a call asks the host for the next entry.
pub open spec fn asking(v: ReaddirView) -> bool {
    &&& v.request is Some
    &&& v.request == next_request(v.stream)
    &&& v.pending is None
    &&& v.keep is None
    &&& v.cursor >= 2
    &&& (v.cursor < v.target || v.out.len() < v.buf_len)
}

/// Whether a call has ended because its buffer is full or the listing is at
/// its end.
pub open spec fn ended(v: ReaddirView, dir: Seq<DirectoryEntry>) -> bool {
    &&& v.request is None
    &&& if v.cursor < v.target {
        v.cursor == dir.len() + 2
    } else {
        v.out.len() >= v.buf_len || v.cursor == dir.len() + 2
    }
}

/// A call that has read the listing as it should and has ended has the
/// result it should have.
pub proof fn lemma_ended_rightly(
    v: ReaddirView,
    origin: ReaddirView,
    dir: Seq<DirectoryEntry>,
    rest: Seq<DirectoryEntry>,
)
    requires
        on_track(v, origin, dir, rest),
        ended(v, dir),
    ensures
        read_rightly(origin, (v, rest), dir),
{
    reveal(read_rightly);
    reveal(on_track);
    let all = listing(origin.dot_inode, dir);
    lemma_listing_at(origin.dot_inode, dir, 0);
    if v.cursor < v.target {
        assert(v.out =~= Seq::<u8>::empty());
    } else {
        let head = v.window;
        let tail = all.skip(v.cursor as int);
        assert(head + tail =~= all.skip(v.target as int));
        if v.cursor == all.len() {
            assert(head =~= all.skip(v.target as int));
        } else {
            assert(wire_all(head).len() >= v.buf_len);
            lemma_clipped_prefix(head, tail, v.buf_len);
        }
        if v.keep is Some {
            let kept = v.keep->0;
            assert(rest =~= rest_at(dir, kept.1));
        }
    }
}

/// Writing the next entry of the listing keeps the call on track.
pub proof fn lemma_emit_on_track(
    v: ReaddirView,
    origin: ReaddirView,
    dir: Seq<DirectoryEntry>,
    rest: Seq<DirectoryEntry>,
)
    requires
        dir.len() + 2 < u64::MAX,
        on_track(v, origin, dir, rest),
        v.pending is None,
        v.target <= v.cursor < dir.len() + 2,
        v.out.len() < v.buf_len,
        v.cursor >= 2 ==> rest.len() > 0,
    ensures
        on_track(
            spec_emit(v, listing(origin.dot_inode, dir)[v.cursor as int]),
            origin,
            dir,
            if v.cursor >= 2 {
                rest.drop_first()
            } else {
                rest
            },
        ),
        spec_emit(v, listing(origin.dot_inode, dir)[v.cursor as int]).pending is None,
        spec_emit(v, listing(origin.dot_inode, dir)[v.cursor as int]).request == v.request,
        spec_emit(v, listing(origin.dot_inode, dir)[v.cursor as int]).cursor == v.cursor + 1,
{
    reveal(on_track);
    let all = listing(origin.dot_inode, dir);
    let entry = all[v.cursor as int];
    let e = spec_emit(v, entry);
    lemma_listing_at(origin.dot_inode, dir, v.cursor as int);
    lemma_wire_all_push(v.window, entry);
    assert(v.window.push(entry) =~= all.subrange(v.target as int, v.cursor + 1));
    assert(v.out == wire_all(v.window));
    if v.cursor >= 2 {
        assert(rest.drop_first() =~= dir.skip(v.cursor - 1));
    } else {
        assert(dir.skip(0) =~= dir);
    }
}

/// Writing what is at hand keeps the call on track; afterwards the call has
/// ended with its buffer full, or asks the host for the next entry.
pub proof fn lemma_advance_on_track(
    v: ReaddirView,
    origin: ReaddirView,
    dir: Seq<DirectoryEntry>,
    rest: Seq<DirectoryEntry>,
)
    requires
        dir.len() + 2 < u64::MAX,
        on_track(v, origin, dir, rest),
        v.target <= v.cursor,
        v.out.len() < v.buf_len ==> v.keep is None,
    ensures
        on_track(spec_advance(v), origin, dir, rest),
        spec_advance(v).cursor >= v.target,
        spec_advance(v).request is None ==> spec_advance(v).out.len() >= v.buf_len,
        spec_advance(v).request is Some ==> asking(spec_advance(v)),
    decreases at_hand(v),
{
    reveal(on_track);
    let all = listing(origin.dot_inode, dir);
    lemma_advance_unfold(v);
    lemma_listing_at(origin.dot_inode, dir, 0);
    if v.out.len() >= v.buf_len {
    } else if v.cursor == 0 {
        lemma_emit_on_track(v, origin, dir, rest);
        lemma_advance_on_track(spec_emit(v, dot_entry(v.dot_inode)), origin, dir, rest);
    } else if v.cursor == 1 {
        lemma_listing_at(origin.dot_inode, dir, 1);
        lemma_emit_on_track(v, origin, dir, rest);
        lemma_advance_on_track(spec_emit(v, dotdot_entry()), origin, dir, rest);
    } else if v.pending is Some {
        let bare = ReaddirView { pending: None, ..v };
        let before = dir.skip(v.cursor - 2);
        assert(before.len() > 0);
        assert(before.drop_first() =~= rest);
        assert(on_track(bare, origin, dir, before));
        lemma_emit_on_track(bare, origin, dir, before);
        lemma_advance_on_track(spec_emit(bare, v.pending->0), origin, dir, rest);
    } else {
    }
}

/// Taking one entry from the host keeps the call on track; afterwards the
/// call has ended with its buffer full, or asks the host for the next entry.
pub proof fn lemma_entry_on_track(
    v: ReaddirView,
    origin: ReaddirView,
    dir: Seq<DirectoryEntry>,
    rest: Seq<DirectoryEntry>,
)
    requires
        dir.len() + 2 < u64::MAX,
        on_track(v, origin, dir, rest),
        asking(v),
        rest.len() > 0,
    ensures
        on_track(spec_on_entry(v, Ok(Some(rest[0]))), origin, dir, rest.drop_first()),
        spec_on_entry(v, Ok(Some(rest[0]))).request is None ==> ended(
            spec_on_entry(v, Ok(Some(rest[0]))),
            dir,
        ),
        spec_on_entry(v, Ok(Some(rest[0]))).request is Some ==> asking(
            spec_on_entry(v, Ok(Some(rest[0]))),
        ),
{
    reveal(on_track);
    let all = listing(origin.dot_inode, dir);
    let entry = rest[0];
    let after = rest.drop_first();
    lemma_listing_at(origin.dot_inode, dir, v.cursor as int);
    assert(entry == dir[v.cursor - 2]);
    assert(after =~= dir.skip(v.cursor - 1));
    if v.cursor < v.target {
        let moved = ReaddirView { cursor: next_cookie(v.cursor), ..v };
        if moved.cursor < v.target {
        } else {
            assert(all.subrange(v.target as int, v.target as int) =~= Seq::<Entry>::empty());
            assert(moved.window =~= Seq::<Entry>::empty());
            assert(moved.out =~= Seq::<u8>::empty());
            assert(on_track(moved, origin, dir, after));
            lemma_advance_on_track(moved, origin, dir, after);
        }
    } else {
        assert(host_entry(entry, v.cursor) == all[v.cursor as int]);
        lemma_emit_on_track(v, origin, dir, rest);
        let e = spec_emit(v, all[v.cursor as int]);
        lemma_advance_on_track(e, origin, dir, after);
    }
}

/// A call that asks for the next entry when the listing is at its end has
/// ended.
pub proof fn lemma_end_on_track(
    v: ReaddirView,
    origin: ReaddirView,
    dir: Seq<DirectoryEntry>,
    rest: Seq<DirectoryEntry>,
)
    requires
        on_track(v, origin, dir, rest),
        asking(v),
        rest.len() == 0,
    ensures
        on_track(spec_on_entry(v, Ok(None)), origin, dir, rest),
        ended(spec_on_entry(v, Ok(None)), dir),
{
    reveal(on_track);
}

/// One step of feeding a call.
pub proof fn lemma_feed_unfold(v: ReaddirView, rest: Seq<DirectoryEntry>)
    ensures
        spec_feed(v, rest) == (if v.request is Some && v.request == next_request(v.stream) {
            if rest.len() == 0 {
                (spec_on_entry(v, Ok(None)), rest)
            } else {
                spec_feed(spec_on_entry(v, Ok(Some(rest[0]))), rest.drop_first())
            }
        } else {
            (v, rest)
        }),
{
    reveal(spec_feed);
}

/// A call that asks for the next entry when the listing is at its end ends
/// with the result it should have.
pub proof fn lemma_feed_end(
    v: ReaddirView,
    origin: ReaddirView,
    dir: Seq<DirectoryEntry>,
    rest: Seq<DirectoryEntry>,
)
    requires
        on_track(v, origin, dir, rest),
        asking(v),
        rest.len() == 0,
    ensures
        read_rightly(origin, spec_feed(v, rest), dir),
{
    let w = spec_on_entry(v, Ok(None));
    lemma_feed_unfold(v, rest);
    assert(spec_feed(v, rest) == (w, rest));
    lemma_end_on_track(v, origin, dir, rest);
    lemma_ended_rightly(w, origin, dir, rest);
}

/// A call that asks for the next entry and gets one either ends with the
/// result it should have or asks for the entry behind it.
pub proof fn lemma_feed_one(
    v: ReaddirView,
    origin: ReaddirView,
    dir: Seq<DirectoryEntry>,
    rest: Seq<DirectoryEntry>,
)
    requires
        dir.len() + 2 < u64::MAX,
        on_track(v, origin, dir, rest),
        asking(v),
        rest.len() > 0,
    ensures
        ({
            let w = spec_on_entry(v, Ok(Some(rest[0])));
            &&& spec_feed(v, rest) == spec_feed(w, rest.drop_first())
            &&& on_track(w, origin, dir, rest.drop_first())
            &&& w.request is None ==> read_rightly(origin, spec_feed(w, rest.drop_first()), dir)
            &&& w.request is Some ==> asking(w)
        }),
{
    let w = spec_on_entry(v, Ok(Some(rest[0])));
    lemma_feed_unfold(v, rest);
    lemma_entry_on_track(v, origin, dir, rest);
    if w.request is None {
        lemma_feed_unfold(w, rest.drop_first());
        lemma_ended_rightly(w, origin, dir, rest.drop_first());
    }
}

/// A call that asks the host for the next entry and is fed what the host has
/// yet to yield ends with the result it should have.
pub proof fn lemma_feed(
    v: ReaddirView,
    origin: ReaddirView,
    dir: Seq<DirectoryEntry>,
    rest: Seq<DirectoryEntry>,
)
    requires
        dir.len() + 2 < u64::MAX,
        on_track(v, origin, dir, rest),
        asking(v),
    ensures
        read_rightly(origin, spec_feed(v, rest), dir),
    decreases rest.len(),
{
    if rest.len() == 0 {
        lemma_feed_end(v, origin, dir, rest);
    } else {
        lemma_feed_one(v, origin, dir, rest);
        let w = spec_on_entry(v, Ok(Some(rest[0])));
        if w.request is Some {
            lemma_feed(w, origin, dir, rest.drop_first());
        }
    }
}

/// A call that opens the listing of a directory and is fed the listing
/// returns the bytes of the listing from its cookie on, cut at the size of its
/// buffer. Where it keeps an entry for the directory cache, that entry is the
/// one at the cookie it is kept for, and the listing stands behind it.
pub proof fn lemma_new_listing_is_read(
    fd: Fd,
    cookie: Dircookie,
    buf_len: nat,
    handle: DescriptorHandle,
    stat: DescriptorStat,
    stream: DirectoryEntryStream,
    kept: Entry,
    dir: Seq<DirectoryEntry>,
)
    requires
        dir.len() + 2 < u64::MAX,
    ensures
        ({
            let begun = spec_begin(fd, cookie, buf_len, Ok(handle), None, kept);
            let opened = spec_on_open(spec_on_stat(begun, Ok(stat)), Ok(stream));
            let end = spec_feed(opened, dir);
            &&& end.0.request is None
            &&& end.0.errno == ERRNO_SUCCESS
            &&& end.0.out == spec_readdir(stat.inode, dir, cookie, buf_len)
            &&& (end.0.keep matches Some(kept) ==> kept.1 < dir.len() + 2 && kept.0 == listing(
                stat.inode,
                dir,
            )[kept.1 as int] && end.1 == rest_at(dir, kept.1))
        }),
{
    reveal(read_rightly);
    reveal(on_track);
    let begun = spec_begin(fd, cookie, buf_len, Ok(handle), None, kept);
    let known = spec_on_stat(begun, Ok(stat));
    let opened = spec_on_open(known, Ok(stream));
    let all = listing(stat.inode, dir);
    lemma_listing_at(stat.inode, dir, 0);
    let origin = ReaddirView { stream: Some(stream), ..known };
    assert(dir.skip(0) =~= dir);
    if cookie > 2 {
        if 2 == all.len() {
            assert(dir.len() == 0);
        }
        assert(on_track(opened, origin, dir, dir));
        lemma_feed(opened, origin, dir, dir);
    } else {
        let start = ReaddirView { cursor: cookie, ..origin };
        assert(all.subrange(cookie as int, cookie as int) =~= Seq::<Entry>::empty());
        assert(on_track(start, origin, dir, dir));
        lemma_advance_on_track(start, origin, dir, dir);
        lemma_feed_unfold(opened, dir);
        if opened.request is None {
            lemma_ended_rightly(opened, origin, dir, dir);
        } else {
            lemma_feed(opened, origin, dir, dir);
        }
    }
}

/// A call that goes on with the listing that an earlier call has left in the
/// directory cache returns the same as a call that opens the listing anew: the
/// cache changes no result. The earlier call has left the entry at the cookie
/// and the listing behind it, which is how every call leaves them.
pub proof fn lemma_kept_listing_is_read(
    fd: Fd,
    cookie: Dircookie,
    buf_len: nat,
    handle: DescriptorHandle,
    stat: DescriptorStat,
    stream: DirectoryEntryStream,
    kept: Entry,
    dir: Seq<DirectoryEntry>,
)
    requires
        dir.len() + 2 < u64::MAX,
        cookie < dir.len() + 2,
        kept == listing(stat.inode, dir)[cookie as int],
    ensures
        ({
            let begun = spec_begin(fd, cookie, buf_len, Ok(handle), Some(stream), kept);
            let end = spec_feed(spec_on_stat(begun, Ok(stat)), rest_at(dir, cookie));
            &&& end.0.request is None
            &&& end.0.errno == ERRNO_SUCCESS
            &&& end.0.out == spec_readdir(stat.inode, dir, cookie, buf_len)
            &&& (end.0.keep matches Some(kept) ==> kept.1 < dir.len() + 2 && kept.0 == listing(
                stat.inode,
                dir,
            )[kept.1 as int] && end.1 == rest_at(dir, kept.1))
        }),
{
    reveal(read_rightly);
    reveal(on_track);
    let begun = spec_begin(fd, cookie, buf_len, Ok(handle), Some(stream), kept);
    let known = spec_on_stat(begun, Ok(stat));
    let all = listing(stat.inode, dir);
    let rest = rest_at(dir, cookie);
    lemma_listing_at(stat.inode, dir, 0);
    let origin = ReaddirView { dot_inode: stat.inode, ..begun };
    let start = origin;
    assert(all.subrange(cookie as int, cookie as int) =~= Seq::<Entry>::empty());
    assert(on_track(start, origin, dir, rest));
    lemma_advance_on_track(start, origin, dir, rest);
    lemma_feed_unfold(known, rest);
    if known.request is None {
        lemma_ended_rightly(known, origin, dir, rest);
    } else {
        lemma_feed(known, origin, dir, rest);
    }
}

} // verus!
