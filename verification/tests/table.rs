use preview1_adapter::capability::{HostCall, Source};
use preview1_adapter::descriptor::{
    nothing_released, Descriptor, File, Released, StreamType, Streams,
};
use preview1_adapter::flat::{
    ERRNO_BADF, ERRNO_INVAL, ERRNO_NOMEM, ERRNO_NOTDIR, ERRNO_SPIPE,
};
use preview1_adapter::table::DescriptorTable;

fn file(handle: u32) -> Streams {
    Streams::of_file(handle, false)
}

fn open(handle: u32) -> Descriptor {
    Descriptor::Streams(file(handle))
}

fn is_closed(table: &DescriptorTable, fd: u32) -> bool {
    matches!(table.get(fd), Ok(Descriptor::Closed(_)))
}

/// The free list as the links of the table give it.
fn free_list(table: &DescriptorTable) -> Vec<u32> {
    let mut list = Vec::new();
    let mut next = table.next_free();
    while let Some(fd) = next {
        assert!(list.len() < table.len(), "the free list runs in a circle");
        list.push(fd);
        next = match table.get(fd) {
            Ok(Descriptor::Closed(link)) => link,
            other => panic!("slot {} of the free list holds {:?}", fd, other),
        };
    }
    list
}

fn check(table: &DescriptorTable) {
    let list = free_list(table);
    for fd in 0..table.len() as u32 {
        assert_eq!(is_closed(table, fd), list.contains(&fd));
    }
    let mut sorted = list.clone();
    sorted.sort();
    sorted.dedup();
    assert_eq!(sorted.len(), list.len());
}

#[test]
fn push_appends() {
    let mut table = DescriptorTable::new();
    assert_eq!(table.len(), 0);
    assert_eq!(table.push_desc(open(10)), Ok(0));
    assert_eq!(table.push_desc(Descriptor::Stderr), Ok(1));
    assert_eq!(table.push_desc(open(11)), Ok(2));
    assert_eq!(table.len(), 3);
    assert_eq!(table.get(0), Ok(open(10)));
    assert_eq!(table.get(1), Ok(Descriptor::Stderr));
    assert_eq!(table.get(2), Ok(open(11)));
    assert_eq!(table.get(3), Err(ERRNO_BADF));
    assert_eq!(table.next_free(), None);
    check(&table);
}

#[test]
fn push_fails_when_the_table_is_full() {
    let mut table = DescriptorTable::new();
    for i in 0..128u32 {
        assert_eq!(table.push_desc(open(i)), Ok(i));
    }
    assert_eq!(table.push_desc(open(999)), Err(ERRNO_NOMEM));
    assert_eq!(table.len(), 128);
    assert_eq!(table.install(file(999)), Err(ERRNO_NOMEM));
    assert_eq!(table.close(5).map(|_| ()), Ok(()));
    assert_eq!(table.push_desc(open(999)), Err(ERRNO_NOMEM));
    assert_eq!(table.install(file(999)), Ok(5));
    assert_eq!(table.install(file(1000)), Err(ERRNO_NOMEM));
    check(&table);
}

#[test]
fn pushing_a_closed_slot_adds_a_free_slot() {
    let mut table = DescriptorTable::new();
    assert_eq!(table.push_desc(open(1)), Ok(0));
    assert_eq!(table.push_desc(Descriptor::Closed(Some(77))), Ok(1));
    assert_eq!(table.get(1), Ok(Descriptor::Closed(None)));
    assert_eq!(table.push_desc(Descriptor::Closed(None)), Ok(2));
    assert_eq!(free_list(&table), vec![2, 1]);
    check(&table);
}

#[test]
fn close_gives_up_the_handles() {
    let mut table = DescriptorTable::new();
    let streams = Streams {
        input: Some(5),
        output: Some(6),
        type_: StreamType::File(File { fd: 7, position: 3, append: true }),
    };
    table.push_desc(Descriptor::Streams(streams)).unwrap();
    table.push_desc(Descriptor::Stderr).unwrap();
    table
        .push_desc(Descriptor::Streams(Streams {
            input: None,
            output: Some(9),
            type_: StreamType::Unknown,
        }))
        .unwrap();
    assert_eq!(
        table.close(0),
        Ok(Released {
            input: Some(5),
            output: Some(6),
            descriptor: Some(7),
            socket: None,
            directory_stream: None
        })
    );
    assert_eq!(table.close(1), Ok(nothing_released()));
    assert_eq!(
        table.close(2),
        Ok(Released {
            input: None,
            output: Some(9),
            descriptor: None,
            socket: None,
            directory_stream: None
        })
    );
    assert_eq!(table.close(3), Err(ERRNO_BADF));
    assert_eq!(free_list(&table), vec![2, 1, 0]);
    check(&table);
}

#[test]
fn closed_descriptor_is_reused_first() {
    let mut table = DescriptorTable::new();
    for i in 0..6u32 {
        table.push_desc(open(i)).unwrap();
    }
    table.close(4).unwrap();
    assert_eq!(table.install(file(100)), Ok(4));
    table.close(1).unwrap();
    table.close(3).unwrap();
    table.close(5).unwrap();
    assert_eq!(free_list(&table), vec![5, 3, 1]);
    assert_eq!(table.install(file(101)), Ok(5));
    assert_eq!(table.install(file(102)), Ok(3));
    assert_eq!(table.install(file(103)), Ok(1));
    assert_eq!(table.install(file(104)), Ok(6));
    assert_eq!(table.get(5), Ok(open(101)));
    assert_eq!(table.get(3), Ok(open(102)));
    assert_eq!(table.get(1), Ok(open(103)));
    assert_eq!(table.get(6), Ok(open(104)));
    assert_eq!(table.get(0), Ok(open(0)));
    assert_eq!(table.get(2), Ok(open(2)));
    assert_eq!(table.get(4), Ok(open(100)));
    check(&table);
}

#[test]
fn closing_twice_keeps_the_free_list_sound() {
    let mut table = DescriptorTable::new();
    for i in 0..5u32 {
        table.push_desc(open(i)).unwrap();
    }
    table.close(1).unwrap();
    table.close(3).unwrap();
    table.close(2).unwrap();
    assert_eq!(free_list(&table), vec![2, 3, 1]);
    // a closed slot that is closed again moves to the head of the free list
    assert_eq!(table.close(1), Ok(nothing_released()));
    assert_eq!(free_list(&table), vec![1, 2, 3]);
    assert_eq!(table.close(1), Ok(nothing_released()));
    assert_eq!(free_list(&table), vec![1, 2, 3]);
    assert_eq!(table.close(2), Ok(nothing_released()));
    assert_eq!(free_list(&table), vec![2, 1, 3]);
    check(&table);
    assert_eq!(table.install(file(10)), Ok(2));
    assert_eq!(table.install(file(11)), Ok(1));
    assert_eq!(table.install(file(12)), Ok(3));
    assert_eq!(table.install(file(13)), Ok(5));
    check(&table);
}

#[test]
fn no_two_open_descriptors_share_a_number() {
    let mut table = DescriptorTable::new();
    let mut open_handles: Vec<(u32, u32)> = Vec::new();
    let mut next_handle = 0u32;
    // a fixed pseudo-random sequence of opens and closes
    let mut seed = 12345u32;
    for _ in 0..2000 {
        seed = seed.wrapping_mul(1103515245).wrapping_add(12345);
        let choice = (seed >> 16) % 3;
        if choice < 2 {
            match table.install(file(next_handle)) {
                Ok(fd) => {
                    assert!(open_handles.iter().all(|(other, _)| *other != fd));
                    open_handles.push((fd, next_handle));
                }
                Err(errno) => {
                    assert_eq!(errno, ERRNO_NOMEM);
                    assert_eq!(open_handles.len(), 128);
                }
            }
            next_handle += 1;
        } else if !open_handles.is_empty() {
            let at = ((seed >> 8) as usize) % open_handles.len();
            let (fd, handle) = open_handles.remove(at);
            let released = table.close(fd).unwrap();
            assert_eq!(released.descriptor, Some(handle));
            // the number that was just closed is the one that comes next
            assert_eq!(table.next_free(), Some(fd));
        }
        for (fd, handle) in open_handles.iter() {
            assert_eq!(table.get(*fd), Ok(open(*handle)));
        }
    }
    check(&table);
}

#[test]
fn renumber_onto_an_open_descriptor() {
    let mut table = DescriptorTable::new();
    for i in 0..5u32 {
        table.push_desc(open(i)).unwrap();
    }
    let moved = Streams {
        input: Some(40),
        output: None,
        type_: StreamType::File(File { fd: 41, position: 99, append: false }),
    };
    table.replace(3, Descriptor::Streams(moved));
    let released = table.renumber(3, 1).unwrap();
    assert_eq!(released.descriptor, Some(1));
    assert_eq!(table.get(1), Ok(Descriptor::Streams(moved)));
    assert!(is_closed(&table, 3));
    assert_eq!(table.get_file(1), Ok(File { fd: 41, position: 99, append: false }));
    assert_eq!(table.get_read_stream(1), Ok(Source::Ready(40)));
    assert_eq!(
        table.get_write_stream(1),
        Ok(Source::Create(HostCall::WriteViaStream { fd: 41, offset: 99 }))
    );
    // the old number reports a bad descriptor on every lookup
    assert_eq!(table.get_file(3), Err(ERRNO_BADF));
    assert_eq!(table.get_dir(3), Err(ERRNO_BADF));
    assert_eq!(table.get_seekable_file(3), Err(ERRNO_BADF));
    assert_eq!(table.get_seekable_stream(3), Err(ERRNO_BADF));
    assert_eq!(table.get_socket(3), Err(ERRNO_BADF));
    assert_eq!(table.get_read_stream(3), Err(ERRNO_BADF));
    assert_eq!(table.get_write_stream(3), Err(ERRNO_BADF));
    assert_eq!(table.get(0), Ok(open(0)));
    assert_eq!(table.get(2), Ok(open(2)));
    assert_eq!(table.get(4), Ok(open(4)));
    assert_eq!(free_list(&table), vec![3]);
    assert_eq!(table.len(), 5);
    check(&table);
}

#[test]
fn renumber_grows_the_table() {
    let mut table = DescriptorTable::new();
    for i in 0..4u32 {
        table.push_desc(open(i)).unwrap();
    }
    assert_eq!(table.renumber(2, 9), Ok(nothing_released()));
    assert_eq!(table.len(), 10);
    assert_eq!(table.get(9), Ok(open(2)));
    assert!(is_closed(&table, 2));
    for fd in 4..9 {
        assert!(is_closed(&table, fd));
    }
    assert_eq!(free_list(&table), vec![2, 8, 7, 6, 5, 4]);
    check(&table);
    assert_eq!(table.install(file(50)), Ok(2));
    assert_eq!(table.install(file(51)), Ok(8));
    check(&table);
}

#[test]
fn renumber_onto_a_closed_descriptor() {
    let mut table = DescriptorTable::new();
    for i in 0..6u32 {
        table.push_desc(open(i)).unwrap();
    }
    table.close(1).unwrap();
    table.close(4).unwrap();
    table.close(2).unwrap();
    assert_eq!(free_list(&table), vec![2, 4, 1]);
    assert_eq!(table.renumber(5, 4), Ok(nothing_released()));
    assert_eq!(table.get(4), Ok(open(5)));
    assert_eq!(free_list(&table), vec![5, 2, 1]);
    check(&table);
    assert_eq!(table.install(file(60)), Ok(5));
    assert_eq!(table.install(file(61)), Ok(2));
    assert_eq!(table.install(file(62)), Ok(1));
    assert_eq!(table.install(file(63)), Ok(6));
    check(&table);
}

#[test]
fn renumber_fails() {
    let mut table = DescriptorTable::new();
    for i in 0..3u32 {
        table.push_desc(open(i)).unwrap();
    }
    // no such descriptor
    assert_eq!(table.renumber(7, 1), Err(ERRNO_BADF));
    assert_eq!(table.len(), 3);
    // the table grows before the descriptor is looked up
    assert_eq!(table.renumber(7, 5), Err(ERRNO_BADF));
    assert_eq!(table.len(), 6);
    assert_eq!(free_list(&table), vec![5, 4, 3]);
    // a closed descriptor cannot be renumbered
    assert_eq!(table.renumber(4, 0), Err(ERRNO_BADF));
    assert_eq!(table.get(0), Ok(open(0)));
    // no room for the target
    assert_eq!(table.renumber(0, 128), Err(ERRNO_NOMEM));
    assert_eq!(table.len(), 128);
    assert_eq!(table.get(0), Ok(open(0)));
    assert_eq!(table.renumber(0, u32::MAX), Err(ERRNO_NOMEM));
    check(&table);
    // onto itself nothing moves
    assert_eq!(table.renumber(1, 1), Ok(nothing_released()));
    assert_eq!(table.get(1), Ok(open(1)));
    check(&table);
    assert_eq!(table.renumber(2, 127), Ok(nothing_released()));
    assert_eq!(table.get(127), Ok(open(2)));
    check(&table);
}

#[test]
fn set_replaces_whatever_the_slot_held() {
    let mut table = DescriptorTable::new();
    for i in 0..4u32 {
        table.push_desc(open(i)).unwrap();
    }
    table.close(2).unwrap();
    table.close(0).unwrap();
    assert_eq!(table.set(2, Descriptor::Stderr), nothing_released());
    assert_eq!(table.get(2), Ok(Descriptor::Stderr));
    assert_eq!(free_list(&table), vec![0]);
    let released = table.set(1, open(70));
    assert_eq!(released.descriptor, Some(1));
    assert_eq!(table.get(1), Ok(open(70)));
    check(&table);
}

#[test]
fn lookups_report_the_right_error() {
    let mut table = DescriptorTable::new();
    table.push_desc(open(30)).unwrap();
    table.push_desc(Descriptor::Stderr).unwrap();
    table
        .push_desc(Descriptor::Streams(Streams {
            input: Some(1),
            output: None,
            type_: StreamType::Unknown,
        }))
        .unwrap();
    table
        .push_desc(Descriptor::Streams(Streams {
            input: None,
            output: None,
            type_: StreamType::Socket(8),
        }))
        .unwrap();
    table
        .push_desc(Descriptor::Streams(Streams {
            input: None,
            output: None,
            type_: StreamType::EmptyStdin,
        }))
        .unwrap();
    table.push_desc(open(31)).unwrap();
    table.close(5).unwrap();

    let f = File { fd: 30, position: 0, append: false };
    assert_eq!(table.get_file(0), Ok(f));
    assert_eq!(table.get_dir(0), Ok(f));
    assert_eq!(table.get_seekable_file(0), Ok(f));
    assert_eq!(table.get_socket(0), Err(ERRNO_INVAL));
    assert_eq!(
        table.get_read_stream(0),
        Ok(Source::Create(HostCall::ReadViaStream { fd: 30, offset: 0 }))
    );

    assert_eq!(table.get_file(1), Err(ERRNO_INVAL));
    assert_eq!(table.get_dir(1), Err(ERRNO_NOTDIR));
    assert_eq!(table.get_seekable_file(1), Err(ERRNO_SPIPE));
    assert_eq!(table.get_seekable_stream(1), Err(ERRNO_SPIPE));
    assert_eq!(table.get_socket(1), Err(ERRNO_INVAL));
    assert_eq!(table.get_read_stream(1), Err(ERRNO_BADF));
    assert_eq!(table.get_write_stream(1), Err(ERRNO_BADF));

    assert_eq!(table.get_file(2), Err(ERRNO_INVAL));
    assert_eq!(table.get_dir(2), Err(ERRNO_NOTDIR));
    assert_eq!(table.get_seekable_file(2), Err(ERRNO_SPIPE));
    assert!(table.get_seekable_stream(2).is_ok());
    assert_eq!(table.get_read_stream(2), Ok(Source::Ready(1)));
    assert_eq!(table.get_write_stream(2), Err(ERRNO_BADF));

    assert_eq!(table.get_socket(3), Ok(8));
    assert_eq!(table.get_file(3), Err(ERRNO_INVAL));
    assert_eq!(table.get_read_stream(3), Err(ERRNO_BADF));

    assert_eq!(table.get_read_stream(4), Err(ERRNO_BADF));
    assert_eq!(table.get_write_stream(4), Err(ERRNO_BADF));

    for fd in [5u32, 6, 1000] {
        assert_eq!(table.get_file(fd), Err(ERRNO_BADF));
        assert_eq!(table.get_dir(fd), Err(ERRNO_BADF));
        assert_eq!(table.get_seekable_file(fd), Err(ERRNO_BADF));
        assert_eq!(table.get_seekable_stream(fd), Err(ERRNO_BADF));
        assert_eq!(table.get_stream_with_error(fd, ERRNO_INVAL), Err(ERRNO_BADF));
        assert_eq!(table.get_file_with_error(fd, ERRNO_INVAL), Err(ERRNO_BADF));
        assert_eq!(table.get_socket(fd), Err(ERRNO_BADF));
        assert_eq!(table.get_read_stream(fd), Err(ERRNO_BADF));
        assert_eq!(table.get_write_stream(fd), Err(ERRNO_BADF));
    }
}

#[test]
fn streams_are_created_where_the_file_stands() {
    let reading = Streams {
        input: None,
        output: None,
        type_: StreamType::File(File { fd: 4, position: 17, append: false }),
    };
    assert_eq!(
        reading.get_read_stream(),
        Ok(Source::Create(HostCall::ReadViaStream { fd: 4, offset: 17 }))
    );
    assert_eq!(
        reading.get_write_stream(),
        Ok(Source::Create(HostCall::WriteViaStream { fd: 4, offset: 17 }))
    );
    let appending = Streams {
        input: Some(1),
        output: None,
        type_: StreamType::File(File { fd: 4, position: 17, append: true }),
    };
    assert_eq!(appending.get_read_stream(), Ok(Source::Ready(1)));
    assert_eq!(
        appending.get_write_stream(),
        Ok(Source::Create(HostCall::AppendViaStream { fd: 4 }))
    );
    let both = Streams { input: Some(1), output: Some(2), type_: StreamType::Unknown };
    assert_eq!(both.get_read_stream(), Ok(Source::Ready(1)));
    assert_eq!(both.get_write_stream(), Ok(Source::Ready(2)));
    let none = Streams { input: None, output: None, type_: StreamType::EmptyStdin };
    assert_eq!(none.get_read_stream(), Err(ERRNO_BADF));
    assert_eq!(none.get_write_stream(), Err(ERRNO_BADF));
    let socket = Streams { input: None, output: Some(3), type_: StreamType::Socket(12) };
    assert_eq!(
        socket.release(),
        Released {
            input: None,
            output: Some(3),
            descriptor: None,
            socket: Some(12),
            directory_stream: None
        }
    );
}
