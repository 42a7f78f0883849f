//! What holds of the adapter across several calls.

use vstd::prelude::*;
use crate::arena::{
    BumpArena, is_power_of_two, lemma_align_up_steps,
};
use crate::capability::{
    DescriptorHandle, HostCall, OutputStream, Source, TcpSocket,
};
use crate::descriptor::{
    Descriptor, File, StreamType, Streams,
};
use crate::flat::{
    ERRNO_BADF, Errno, Fd, Filesize,
};
use crate::readdir::{
    Entry, clipped, lemma_wire_all_concat, wire_all,
};
use crate::state::State;
use crate::state::fd_calls::{
    spec_moved, spec_sought,
};
use crate::table::{
    DescriptorTable, head_of, without,
};

verus! {

/// A descriptor that is opened gets a number that was not in use, and every
/// descriptor that was in use keeps its number and what it refers to: no two
/// open descriptors ever share a number.
pub proof fn lemma_open_takes_unused_number(
    before: DescriptorTable,
    after: Seq<Descriptor>,
    fd: Fd,
    streams: Streams,
)
    requires
        before.wf(),
        fd == (match head_of(before.free_list()) {
            Some(head) => head,
            None => before@.len() as Fd,
        }),
        after == (if fd < before@.len() {
            before@.update(fd as int, Descriptor::Streams(streams))
        } else {
            before@.push(Descriptor::Streams(streams))
        }),
    ensures
        !before.is_open(fd),
        fd < after.len(),
        after[fd as int] == Descriptor::Streams(streams),
        forall|other: Fd| #[trigger]
            before.is_open(other) ==> other != fd && after[other as int] == before@[other as int],
{
    if before.free_list().len() > 0 {
        assert(before.free_list()[0] < before@.len());
    }
}

/// A descriptor that was just closed is the one that the next open gets.
pub proof fn lemma_closed_number_is_reused(free_before: Seq<Fd>, closed: Fd)
    ensures
        head_of(seq![closed] + without(free_before, closed)) == Some(closed),
{
    assert((seq![closed] + without(free_before, closed))[0] == closed);
}

/// After descriptor `from` has been renumbered onto `to`, every lookup of `to`
/// gives what the lookup of `from` gave before, and every lookup of `from`
/// reports a bad descriptor.
pub proof fn lemma_renumber_moves_descriptor(
    before: DescriptorTable,
    after: DescriptorTable,
    from: Fd,
    to: Fd,
    error: Errno,
)
    requires
        before.is_open(from),
        from != to,
        from < after@.len(),
        to < after@.len(),
        after@[to as int] == before@[from as int],
        !after.is_open(from),
    ensures
        after.spec_get(to) == before.spec_get(from),
        after.spec_stream_with_error(to, error) == before.spec_stream_with_error(from, error),
        after.spec_file_with_error(to, error) == before.spec_file_with_error(from, error),
        after.spec_socket(to) == before.spec_socket(from),
        after.spec_read_stream(to) == before.spec_read_stream(from),
        after.spec_write_stream(to) == before.spec_write_stream(from),
        after.spec_stream_with_error(from, error) == Err::<Streams, Errno>(ERRNO_BADF),
        after.spec_file_with_error(from, error) == Err::<File, Errno>(ERRNO_BADF),
        after.spec_socket(from) == Err::<TcpSocket, Errno>(ERRNO_BADF),
        after.spec_read_stream(from) == Err::<Source, Errno>(ERRNO_BADF),
        after.spec_write_stream(from) == Err::<Source, Errno>(ERRNO_BADF),
{
}

/// After a seek, a file is read from the position sought, and written at the
/// position sought unless it is in append mode: in append mode a seek does not
/// move where writes land.
pub proof fn lemma_seek_rebinds_streams(streams: Streams, file: File, target: Filesize)
    ensures
        spec_sought(streams, file, target).spec_read_stream() == Ok::<Source, Errno>(
            Source::Create(HostCall::ReadViaStream { fd: file.fd, offset: target }),
        ),
        !file.append ==> spec_sought(streams, file, target).spec_write_stream() == Ok::<
            Source,
            Errno,
        >(Source::Create(HostCall::WriteViaStream { fd: file.fd, offset: target })),
        file.append ==> spec_sought(streams, file, target).spec_write_stream() == Ok::<
            Source,
            Errno,
        >(Source::Create(HostCall::AppendViaStream { fd: file.fd })),
{
}

/// A write through a file that is not in append mode moves the position by
/// the bytes written; a write in append mode leaves it; a read moves it by the
/// bytes read.
pub proof fn lemma_position_follows_data(
    table: Seq<Descriptor>,
    fd: Fd,
    streams: Streams,
    file: File,
    len: u64,
)
    requires
        fd < table.len(),
        table[fd as int] == Descriptor::Streams(streams),
        streams.type_ == StreamType::File(file),
        file.position + len <= u64::MAX,
    ensures
        spec_moved(table, fd, len, false)[fd as int] == Descriptor::Streams(
            Streams {
                type_: StreamType::File(File { position: (file.position + len) as u64, ..file }),
                ..streams
            },
        ),
        !file.append ==> spec_moved(table, fd, len, true) == spec_moved(table, fd, len, false),
        file.append ==> spec_moved(table, fd, len, true) == table,
{
}

/// Once the append flag of a file has been cleared, the next write goes to
/// the position of the file; once it has been set, the next write appends. No
/// output stream from before the change is used.
pub proof fn lemma_append_flag_decides_writes(streams: Streams, file: File, append: bool)
    requires
        append != file.append,
    ensures
        State::spec_append_set(streams, file, append).spec_write_stream() == Ok::<Source, Errno>(
            Source::Create(
                if append {
                    HostCall::AppendViaStream { fd: file.fd }
                } else {
                    HostCall::WriteViaStream { fd: file.fd, offset: file.position }
                },
            ),
        ),
{
}

/// Reading a listing in pieces loses nothing and repeats nothing: where the
/// first `k` entries of a listing fit a buffer whole, the buffer starts with
/// exactly their bytes, and those followed by the bytes of the listing from
/// entry `k` on are the bytes of the whole listing.
pub proof fn lemma_listing_continues(entries: Seq<Entry>, k: int, buf_len: nat)
    requires
        0 <= k <= entries.len(),
        wire_all(entries.take(k)).len() <= buf_len,
    ensures
        wire_all(entries.take(k)).len() <= clipped(wire_all(entries), buf_len).len(),
        clipped(wire_all(entries), buf_len).take(wire_all(entries.take(k)).len() as int)
            == wire_all(entries.take(k)),
        wire_all(entries.take(k)) + wire_all(entries.skip(k)) == wire_all(entries),
{
    lemma_wire_all_concat(entries.take(k), entries.skip(k));
    assert(entries.take(k) + entries.skip(k) =~= entries);
    let head = wire_all(entries.take(k));
    let all = wire_all(entries);
    assert(all == head + wire_all(entries.skip(k)));
    assert(clipped(all, buf_len).take(head.len() as int) =~= head);
}

/// Two regions that an arena hands out one after the other do not overlap:
/// the second starts at or behind the end of the first.
pub proof fn lemma_arena_regions_disjoint(
    before: BumpArena,
    after: BumpArena,
    first: int,
    size: int,
    align: usize,
)
    requires
        before.wf(),
        after.wf(),
        is_power_of_two(align),
        size >= 0,
        before.base() + before.position() <= first,
        after.base() == before.base(),
        after.position() == first + size - before.base(),
    ensures
        first + size <= after.next(align),
{
    lemma_align_up_steps(after.base() + after.position(), align as int);
}

/// What a file holds after `data` went through an output stream that `call`
/// created: a stream that writes at an offset puts the data there, over what
/// was there and with zeros up to there where the file was shorter; a stream
/// that appends puts the data behind the end.
pub open spec fn written_through(call: HostCall, file: Seq<u8>, data: Seq<u8>) -> Seq<u8> {
    match call {
        HostCall::WriteViaStream { fd, offset } => {
            let len = if file.len() > offset + data.len() {
                file.len()
            } else {
                (offset + data.len()) as nat
            };
            Seq::new(
                len,
                |i: int|
                    if offset <= i < offset + data.len() {
                        data[i - offset]
                    } else if i < file.len() {
                        file[i]
                    } else {
                        0u8
                    },
            )
        },
        HostCall::AppendViaStream { fd } => file + data,
        _ => file,
    }
}

/// What `len` bytes read through an input stream that `call` created are:
/// the bytes of the file from the offset of the stream on, as far as the file
/// goes.
pub open spec fn read_through(call: HostCall, file: Seq<u8>, len: nat) -> Seq<u8> {
    match call {
        HostCall::ReadViaStream { fd, offset } => {
            if offset >= file.len() {
                Seq::empty()
            } else if offset + len >= file.len() {
                file.skip(offset as int)
            } else {
                file.subrange(offset as int, offset + len)
            }
        },
        _ => Seq::empty(),
    }
}

/// What is written to a file that was just opened is read back after a seek
/// to the start: the write goes through a stream at position 0 and moves the
/// position behind the data; the seek moves the position back and gives up the
/// streams; and the read goes through a new stream at position 0, which
/// yields exactly the data.
pub proof fn lemma_written_data_is_read_back(handle: DescriptorHandle, data: Seq<u8>)
    requires
        data.len() <= u64::MAX,
    ensures
        ({
            let opened = Streams::spec_of_file(handle, false);
            let file = File { fd: handle, position: 0, append: false };
            let write = opened.spec_write_stream()->Ok_0->Create_0;
            let stored = written_through(write, Seq::empty(), data);
            let written = File { position: data.len() as u64, ..file };
            let sought = spec_sought(
                Streams { output: Some(0), type_: StreamType::File(written), ..opened },
                written,
                0,
            );
            let read = sought.spec_read_stream()->Ok_0->Create_0;
            let writing = Streams { output: Some(0), ..opened };
            &&& opened.spec_write_stream() is Ok
            &&& spec_moved(seq![Descriptor::Streams(writing)], 0, data.len() as u64, true)[0]
                == Descriptor::Streams(Streams { type_: StreamType::File(written), ..writing })
            &&& sought.spec_read_stream() is Ok
            &&& stored == data
            &&& read_through(read, stored, data.len()) == data
        }),
{
    let opened = Streams::spec_of_file(handle, false);
    let write = opened.spec_write_stream()->Ok_0->Create_0;
    let stored = written_through(write, Seq::empty(), data);
    assert(stored =~= data);
    assert(data.skip(0) =~= data);
}

/// In append mode a seek does not move where writes land: what is written
/// after a seek to the start stands behind what was written before. Once the
/// append flag is cleared, what is written after a seek stands at the position
/// sought.
pub proof fn lemma_append_mode_decides_where_writes_land(
    handle: DescriptorHandle,
    first: Seq<u8>,
    second: Seq<u8>,
    stream: OutputStream,
)
    requires
        first.len() + second.len() <= u64::MAX,
        first.len() >= second.len(),
    ensures
        ({
            let file = File { fd: handle, position: 0, append: true };
            let streams = Streams {
                input: None,
                output: Some(stream),
                type_: StreamType::File(file),
            };
            let sought = spec_sought(streams, file, 0);
            let appending = sought.spec_write_stream()->Ok_0->Create_0;
            let cleared = State::spec_append_set(sought, file, false);
            let writing = cleared.spec_write_stream()->Ok_0->Create_0;
            &&& sought.spec_write_stream() is Ok
            &&& cleared.spec_write_stream() is Ok
            &&& written_through(appending, first, second) == first + second
            &&& written_through(writing, first, second) == second + first.skip(second.len() as int)
        }),
{
    let file = File { fd: handle, position: 0, append: true };
    let streams = Streams { input: None, output: Some(stream), type_: StreamType::File(file) };
    let sought = spec_sought(streams, file, 0);
    let cleared = State::spec_append_set(sought, file, false);
    let writing = cleared.spec_write_stream()->Ok_0->Create_0;
    assert(written_through(writing, first, second) =~= second + first.skip(second.len() as int));
}

} // verus!
