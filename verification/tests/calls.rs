use preview1_adapter::capability::{
    Advice, Datetime, DescriptorFlags, DescriptorType, ErrorCode, HostCall, Modes, NewTimestamp,
    OpenFlags, PathFlags, Plan, ResultBuffer,
};
use preview1_adapter::descriptor::{Descriptor, StreamType, Streams};
use preview1_adapter::flat::{
    CLOCKID_MONOTONIC, CLOCKID_PROCESS_CPUTIME_ID, CLOCKID_REALTIME, ERRNO_BADF, ERRNO_INVAL,
    ERRNO_IO, ERRNO_NAMETOOLONG, ERRNO_NOMEM, ERRNO_NOTDIR, ERRNO_NOTSUP, ERRNO_OVERFLOW,
    ERRNO_SPIPE, ERRNO_SUCCESS, FDFLAGS_APPEND, FDFLAGS_DSYNC, FDFLAGS_NONBLOCK, FDFLAGS_SYNC,
    FSTFLAGS_ATIM, FSTFLAGS_MTIM, FSTFLAGS_MTIM_NOW, LOOKUPFLAGS_SYMLINK_FOLLOW, OFLAGS_CREAT,
    OFLAGS_TRUNC, RIGHTS_FD_READ, RIGHTS_FD_WRITE,
};
use preview1_adapter::records::{FdStat, Iovec, Prestat};
use preview1_adapter::state::fd_calls::{file_fdstat, read_result, write_result};
use preview1_adapter::state::misc_calls::{
    proc_exit, proc_raise, sched_yield, sock_accept, sock_recv, sock_send, sock_shutdown,
    wall_time_to_timestamp,
};
use preview1_adapter::state::path_calls::path_readlink_finish;
use preview1_adapter::state::{state_available, AllocationState, State};
use preview1_adapter::strings::{Preopen, PreopenList, WasmStr};

const READY: AllocationState = AllocationState::StateAllocated;

/// A state with the standard streams, a directory at 3 and a file at 4.
fn started() -> State {
    let mut state = State::new(0);
    let preopens = PreopenList::new(vec![Preopen::new(60, WasmStr::new(b"/dir".to_vec()))]);
    state.start_command(11, 12, 13, Vec::new(), preopens);
    assert_eq!(state.path_open_finish(0, Ok(61)).0, Ok(4));
    state
}

fn plain(rights: u64) -> FdStat {
    FdStat { fs_filetype: 0, fs_flags: 0, fs_rights_base: rights, fs_rights_inheriting: rights }
}

#[test]
fn new_state_has_the_standard_descriptors() {
    let state = State::new(64);
    assert_eq!(state.descriptor_count(), 3);
    assert_eq!(
        state.get(0),
        Ok(Descriptor::Streams(Streams { input: None, output: None, type_: StreamType::Unknown }))
    );
    assert_eq!(state.get(1), Ok(Descriptor::Stderr));
    assert_eq!(state.get(2), Ok(Descriptor::Stderr));
    assert_eq!(state.get(3), Err(ERRNO_BADF));
    assert!(state.check_canaries());
    let mut state = state;
    let released = state.start_command(1, 2, 3, Vec::new(), PreopenList::new(Vec::new()));
    assert_eq!(released.0.input, None);
    assert_eq!(
        state.get(0),
        Ok(Descriptor::Streams(Streams { input: Some(1), output: None, type_: StreamType::Unknown }))
    );
    assert_eq!(
        state.get(1),
        Ok(Descriptor::Streams(Streams { input: None, output: Some(2), type_: StreamType::Unknown }))
    );
    assert_eq!(
        state.get(2),
        Ok(Descriptor::Streams(Streams { input: None, output: Some(3), type_: StreamType::Unknown }))
    );
}

#[test]
fn allocation_states() {
    assert!(!state_available(AllocationState::StackUnallocated));
    assert!(!state_available(AllocationState::StackAllocating));
    assert!(state_available(AllocationState::StackAllocated));
    assert!(!state_available(AllocationState::StateAllocating));
    assert!(state_available(AllocationState::StateAllocated));
}

#[test]
fn unsupported_calls() {
    let state = started();
    assert_eq!(state.fd_allocate(4, 0, 10), ERRNO_NOTSUP);
    assert_eq!(state.fd_fdstat_set_rights(4, 0, 0), ERRNO_NOTSUP);
    assert_eq!(proc_raise(9), ERRNO_NOTSUP);
    assert_eq!(sock_accept(4, 0), ERRNO_NOTSUP);
    assert_eq!(sock_recv(4, &Vec::new(), 0), ERRNO_NOTSUP);
    assert_eq!(sock_send(4, &Vec::new(), 0), ERRNO_NOTSUP);
    assert_eq!(sock_shutdown(4, 3), ERRNO_NOTSUP);
    assert_eq!(sched_yield(), ERRNO_SUCCESS);
    assert_eq!(proc_exit(0), HostCall::Exit { success: true });
    assert_eq!(proc_exit(1), HostCall::Exit { success: false });
    assert_eq!(proc_exit(u32::MAX), HostCall::Exit { success: false });
}

#[test]
fn advise() {
    let state = started();
    assert!(matches!(
        state.fd_advise(4, 10, 20, 1),
        Plan::Finish(HostCall::Advise { fd: 61, offset: 10, len: 20, advice: Advice::Sequential })
    ));
    assert!(matches!(
        state.fd_advise(4, 0, 0, 5),
        Plan::Finish(HostCall::Advise { fd: 61, offset: 0, len: 0, advice: Advice::NoReuse })
    ));
    // the advice is looked at before the descriptor
    assert!(matches!(state.fd_advise(4, 0, 0, 6), Plan::Done(ERRNO_INVAL)));
    assert!(matches!(state.fd_advise(99, 0, 0, 6), Plan::Done(ERRNO_INVAL)));
    assert!(matches!(state.fd_advise(99, 0, 0, 0), Plan::Done(ERRNO_BADF)));
    assert!(matches!(state.fd_advise(0, 0, 0, 0), Plan::Done(ERRNO_SPIPE)));
}

#[test]
fn calls_on_a_file() {
    let state = started();
    assert!(matches!(state.fd_datasync(4), Plan::Finish(HostCall::SyncData { fd: 61 })));
    assert!(matches!(state.fd_sync(4), Plan::Finish(HostCall::Sync { fd: 61 })));
    assert!(matches!(state.fd_filestat_get(4), Plan::Finish(HostCall::Stat { fd: 61 })));
    assert!(matches!(
        state.fd_filestat_set_size(4, 77),
        Plan::Finish(HostCall::SetSize { fd: 61, size: 77 })
    ));
    let at = NewTimestamp::Timestamp(Datetime { seconds: 3, nanoseconds: 4 });
    match state.fd_filestat_set_times(4, 3_000_000_004, 9, FSTFLAGS_ATIM | FSTFLAGS_MTIM | FSTFLAGS_MTIM_NOW) {
        Plan::Finish(call) => {
            assert_eq!(call, HostCall::SetTimes { fd: 61, atim: at, mtim: NewTimestamp::Now })
        }
        other => panic!("{:?}", other),
    }
    match state.fd_fdstat_set_flags(4, FDFLAGS_APPEND | FDFLAGS_DSYNC | FDFLAGS_NONBLOCK) {
        Plan::Finish(HostCall::SetFlags { fd, flags }) => {
            assert_eq!(fd, 61);
            assert_eq!(
                flags,
                DescriptorFlags {
                    read: false,
                    write: false,
                    non_blocking: true,
                    file_integrity_sync: false,
                    data_integrity_sync: true,
                    requested_write_sync: false,
                }
            );
        }
        other => panic!("{:?}", other),
    }
    for fd in [0u32, 1, 2] {
        assert!(matches!(state.fd_datasync(fd), Plan::Done(ERRNO_INVAL)));
        assert!(matches!(state.fd_sync(fd), Plan::Done(ERRNO_INVAL)));
        assert!(matches!(state.fd_filestat_get(fd), Plan::Done(ERRNO_INVAL)));
        assert!(matches!(state.fd_filestat_set_size(fd, 0), Plan::Done(ERRNO_INVAL)));
        assert!(matches!(state.fd_filestat_set_times(fd, 0, 0, 0), Plan::Done(ERRNO_INVAL)));
        assert!(matches!(state.fd_fdstat_set_flags(fd, 0), Plan::Done(ERRNO_INVAL)));
    }
    assert!(matches!(state.fd_datasync(5), Plan::Done(ERRNO_BADF)));
    assert!(matches!(state.fd_sync(5), Plan::Done(ERRNO_BADF)));
}

#[test]
fn reads_and_writes_at_an_offset() {
    let state = started();
    let iovs = vec![
        Iovec { buf: 0x100, buf_len: 0 },
        Iovec { buf: 0x200, buf_len: 16 },
        Iovec { buf: 0x300, buf_len: 32 },
    ];
    match state.fd_pread(4, &iovs, 1000) {
        Plan::Finish(call) => assert_eq!(
            call,
            HostCall::Read {
                fd: 61,
                len: 16,
                offset: 1000,
                into: ResultBuffer::Caller { ptr: 0x200, len: 16 }
            }
        ),
        other => panic!("{:?}", other),
    }
    match state.fd_pwrite(4, &iovs, 5) {
        Plan::Finish(call) => {
            assert_eq!(call, HostCall::Write { fd: 61, offset: 5, buf: 0x200, buf_len: 16 })
        }
        other => panic!("{:?}", other),
    }
    assert!(matches!(state.fd_pread(0, &iovs, 0), Plan::Done(Err(ERRNO_INVAL))));
    assert!(matches!(state.fd_pwrite(0, &iovs, 0), Plan::Done(Err(ERRNO_SPIPE))));
    assert!(matches!(state.fd_pread(9, &iovs, 0), Plan::Done(Err(ERRNO_BADF))));
    assert_eq!(read_result(Ok((10, false))), Ok(10));
    assert_eq!(read_result(Ok((0, true))), Ok(0));
    assert_eq!(read_result(Ok((0, false))), Err(27));
    assert_eq!(read_result(Err(ErrorCode::Io)), Err(ERRNO_IO));
    assert_eq!(write_result(Ok(12)), Ok(12));
    assert_eq!(write_result(Err(ErrorCode::InsufficientSpace)), Err(51));
}

#[test]
fn writes_to_streams_and_to_the_error_sink() {
    let mut state = started();
    let iovs = vec![Iovec { buf: 0x40, buf_len: 7 }];
    match state.fd_write(READY, 1, &iovs) {
        Plan::Finish(call) => {
            assert_eq!(call, HostCall::StreamWrite { stream: 12, buf: 0x40, buf_len: 7 })
        }
        other => panic!("{:?}", other),
    }
    assert_eq!(state.fd_write_finish(1, 7, Ok(5)), Ok(5));
    assert_eq!(state.fd_write_finish(1, 7, Err(())), Err(ERRNO_IO));
    // stdin has no output stream
    assert!(matches!(state.fd_write(READY, 0, &iovs), Plan::Done(Err(ERRNO_BADF))));
    assert!(matches!(state.fd_write(READY, 9, &iovs), Plan::Done(Err(ERRNO_BADF))));
    // while the state cannot be used, writing fails
    assert!(matches!(
        state.fd_write(AllocationState::StackAllocating, 1, &iovs),
        Plan::Done(Err(ERRNO_IO))
    ));
    assert!(matches!(
        state.fd_write(AllocationState::StateAllocating, 1, &Vec::new()),
        Plan::Done(Err(ERRNO_IO))
    ));
    // the error sink of a state that has not been started takes everything
    let mut fresh = State::new(0);
    match fresh.fd_write(AllocationState::StackAllocated, 2, &iovs) {
        Plan::Finish(call) => assert_eq!(call, HostCall::PrintStderr { buf: 0x40, buf_len: 7 }),
        other => panic!("{:?}", other),
    }
    assert_eq!(fresh.fd_write_finish(2, 7, Err(())), Ok(7));
    assert_eq!(fresh.fd_read_finish(2, Ok((1, true))), Err(ERRNO_BADF));
    assert!(matches!(fresh.fd_read(2, &iovs), Plan::Done(Err(ERRNO_BADF))));
    // a file writes where it stands
    match state.fd_write(READY, 4, &iovs) {
        Plan::Fetch(call) => assert_eq!(call, HostCall::WriteViaStream { fd: 61, offset: 0 }),
        other => panic!("{:?}", other),
    }
    state.set_write_stream(4, 90);
    assert_eq!(state.fd_write_finish(4, 7, Ok(7)), Ok(7));
    assert_eq!(state.fd_tell(4), Ok(7));
    assert_eq!(state.fd_read_finish(4, Ok((3, false))), Ok(3));
    assert_eq!(state.fd_tell(4), Ok(10));
}

#[test]
fn descriptor_status() {
    let mut state = started();
    // streams report what they have a stream for
    assert!(matches!(state.fd_fdstat_get(0), Plan::Done(Ok(stat)) if stat == plain(RIGHTS_FD_READ)));
    assert!(matches!(state.fd_fdstat_get(1), Plan::Done(Ok(stat)) if stat == plain(RIGHTS_FD_WRITE)));
    assert!(matches!(state.fd_fdstat_get(9), Plan::Done(Err(ERRNO_BADF))));
    let both = Streams { input: Some(1), output: Some(2), type_: StreamType::Socket(3) };
    let fd = state.push_desc(Descriptor::Streams(both)).unwrap();
    assert!(matches!(
        state.fd_fdstat_get(fd),
        Plan::Done(Ok(stat)) if stat == plain(RIGHTS_FD_READ | RIGHTS_FD_WRITE)
    ));
    let none = Streams { input: None, output: None, type_: StreamType::Unknown };
    let fd = state.push_desc(Descriptor::Streams(none)).unwrap();
    assert!(matches!(state.fd_fdstat_get(fd), Plan::Done(Ok(stat)) if stat == plain(0)));
    let empty = Streams { input: None, output: None, type_: StreamType::EmptyStdin };
    let fd = state.push_desc(Descriptor::Streams(empty)).unwrap();
    assert!(matches!(state.fd_fdstat_get(fd), Plan::Done(Ok(stat)) if stat == plain(RIGHTS_FD_READ)));
    // the error sink can do everything but read
    let fresh = State::new(0);
    assert!(matches!(
        fresh.fd_fdstat_get(2),
        Plan::Done(Ok(stat)) if stat == plain(!RIGHTS_FD_READ)
    ));
    state.fd_close(1);
    assert!(matches!(state.fd_fdstat_get(1), Plan::Done(Err(ERRNO_BADF))));

    // a file asks for its flags and then for its type
    assert!(matches!(state.fd_fdstat_get(4), Plan::Finish(HostCall::GetFlags { fd: 61 })));
    let flags = DescriptorFlags {
        read: true,
        write: false,
        non_blocking: true,
        file_integrity_sync: true,
        data_integrity_sync: false,
        requested_write_sync: false,
    };
    assert!(matches!(
        state.fd_fdstat_flags(4, Err(ErrorCode::Access)),
        Plan::Done(Err(2))
    ));
    assert!(matches!(
        state.fd_fdstat_flags(4, Ok(flags)),
        Plan::Finish(HostCall::GetType { fd: 61 })
    ));
    assert_eq!(state.fd_fdstat_type(4, flags, Err(ErrorCode::Io)), Err(ERRNO_IO));
    assert_eq!(
        state.fd_fdstat_type(4, flags, Ok(DescriptorType::RegularFile)),
        Ok(FdStat {
            fs_filetype: 4,
            fs_flags: FDFLAGS_NONBLOCK | FDFLAGS_SYNC,
            fs_rights_base: !RIGHTS_FD_WRITE,
            fs_rights_inheriting: !RIGHTS_FD_WRITE,
        })
    );
    let all = DescriptorFlags {
        read: true,
        write: true,
        non_blocking: true,
        file_integrity_sync: true,
        data_integrity_sync: true,
        requested_write_sync: true,
    };
    assert_eq!(
        file_fdstat(all, DescriptorType::Directory, true),
        FdStat { fs_filetype: 3, fs_flags: 31, fs_rights_base: !0, fs_rights_inheriting: !0 }
    );
    let no = DescriptorFlags {
        read: false,
        write: false,
        non_blocking: false,
        file_integrity_sync: false,
        data_integrity_sync: false,
        requested_write_sync: false,
    };
    assert_eq!(
        file_fdstat(no, DescriptorType::Fifo, false),
        FdStat {
            fs_filetype: 0,
            fs_flags: 0,
            fs_rights_base: !(RIGHTS_FD_READ | RIGHTS_FD_WRITE),
            fs_rights_inheriting: !(RIGHTS_FD_READ | RIGHTS_FD_WRITE),
        }
    );
    // a file in append mode reports the flag
    assert_eq!(state.path_open_finish(FDFLAGS_APPEND, Ok(62)).0, Ok(1));
    assert_eq!(
        state.fd_fdstat_type(1, no, Ok(DescriptorType::RegularFile)).map(|s| s.fs_flags),
        Ok(FDFLAGS_APPEND)
    );
}

#[test]
fn preopened_directories() {
    let mut state = State::new(0);
    let fetch = HostCall::GetPreopens { into: ResultBuffer::Arena };
    assert!(matches!(state.fd_prestat_get(READY, 3), Plan::Fetch(call) if call == fetch));
    assert!(matches!(state.fd_prestat_dir_name(3, 0), Plan::Fetch(call) if call == fetch));
    assert!(matches!(
        state.fd_prestat_get(AllocationState::StackUnallocated, 3),
        Plan::Done(Err(ERRNO_BADF))
    ));
    state.set_preopens(PreopenList::new(vec![
        Preopen::new(70, WasmStr::new(b"/".to_vec())),
        Preopen::new(71, WasmStr::new(b"/home".to_vec())),
    ]));
    assert!(matches!(
        state.fd_prestat_get(READY, 3),
        Plan::Done(Ok(Prestat { tag: 0, pr_name_len: 1 }))
    ));
    assert!(matches!(
        state.fd_prestat_get(READY, 4),
        Plan::Done(Ok(Prestat { tag: 0, pr_name_len: 5 }))
    ));
    assert!(matches!(state.fd_prestat_get(READY, 5), Plan::Done(Err(ERRNO_BADF))));
    assert!(matches!(state.fd_prestat_get(READY, 2), Plan::Done(Err(ERRNO_BADF))));
    match state.fd_prestat_dir_name(4, 5) {
        Plan::Done(Ok(path)) => assert_eq!(path, b"/home".to_vec()),
        other => panic!("{:?}", other),
    }
    // no more than the buffer holds
    match state.fd_prestat_dir_name(4, 3) {
        Plan::Done(Ok(path)) => assert_eq!(path, b"/ho".to_vec()),
        other => panic!("{:?}", other),
    }
    match state.fd_prestat_dir_name(4, 0) {
        Plan::Done(Ok(path)) => assert_eq!(path, Vec::<u8>::new()),
        other => panic!("{:?}", other),
    }
    assert!(matches!(state.fd_prestat_dir_name(4, 6), Plan::Done(Err(ERRNO_NAMETOOLONG))));
    assert!(matches!(state.fd_prestat_dir_name(5, 6), Plan::Done(Err(ERRNO_NOTDIR))));
    assert!(matches!(state.fd_prestat_dir_name(0, 6), Plan::Done(Err(ERRNO_NOTDIR))));
}

#[test]
fn calls_on_a_path() {
    let state = started();
    assert!(matches!(
        state.path_create_directory(3),
        Plan::Finish(HostCall::CreateDirectoryAt { fd: 60 })
    ));
    assert!(matches!(
        state.path_remove_directory(3),
        Plan::Finish(HostCall::RemoveDirectoryAt { fd: 60 })
    ));
    assert!(matches!(state.path_unlink_file(3), Plan::Finish(HostCall::UnlinkFileAt { fd: 60 })));
    assert!(matches!(state.path_symlink(3), Plan::Finish(HostCall::SymlinkAt { fd: 60 })));
    assert!(matches!(
        state.path_rename(3, 4),
        Plan::Finish(HostCall::RenameAt { old: 60, new: 61 })
    ));
    assert!(matches!(
        state.path_link(4, LOOKUPFLAGS_SYMLINK_FOLLOW, 3),
        Plan::Finish(HostCall::LinkAt { old: 61, at_flags: PathFlags { symlink_follow: true }, new: 60 })
    ));
    assert!(matches!(
        state.path_filestat_get(3, 0),
        Plan::Finish(HostCall::StatAt { fd: 60, at_flags: PathFlags { symlink_follow: false } })
    ));
    match state.path_filestat_set_times(3, 1, 0, 2_000_000_000, FSTFLAGS_MTIM) {
        Plan::Finish(call) => assert_eq!(
            call,
            HostCall::SetTimesAt {
                fd: 60,
                at_flags: PathFlags { symlink_follow: true },
                atim: NewTimestamp::NoChange,
                mtim: NewTimestamp::Timestamp(Datetime { seconds: 2, nanoseconds: 0 }),
            }
        ),
        other => panic!("{:?}", other),
    }
    match state.path_open(3, 1, OFLAGS_CREAT | OFLAGS_TRUNC, RIGHTS_FD_WRITE, !0, FDFLAGS_APPEND | FDFLAGS_SYNC) {
        Plan::Finish(call) => assert_eq!(
            call,
            HostCall::OpenAt {
                fd: 60,
                at_flags: PathFlags { symlink_follow: true },
                o_flags: OpenFlags { create: true, directory: false, exclusive: false, truncate: true },
                flags: DescriptorFlags {
                    read: false,
                    write: true,
                    non_blocking: false,
                    file_integrity_sync: true,
                    data_integrity_sync: false,
                    requested_write_sync: false,
                },
                mode: Modes { readable: true, writeable: true, executable: false },
            }
        ),
        other => panic!("{:?}", other),
    }
    // the first lookup that fails decides
    assert!(matches!(state.path_rename(0, 9), Plan::Done(ERRNO_NOTDIR)));
    assert!(matches!(state.path_rename(9, 0), Plan::Done(ERRNO_BADF)));
    assert!(matches!(state.path_rename(3, 0), Plan::Done(ERRNO_NOTDIR)));
    assert!(matches!(state.path_link(3, 0, 9), Plan::Done(ERRNO_BADF)));
    for fd in [0u32, 1, 2] {
        assert!(matches!(state.path_create_directory(fd), Plan::Done(ERRNO_NOTDIR)));
        assert!(matches!(state.path_unlink_file(fd), Plan::Done(ERRNO_NOTDIR)));
        assert!(matches!(state.path_symlink(fd), Plan::Done(ERRNO_NOTDIR)));
        assert!(matches!(state.path_filestat_get(fd, 0), Plan::Done(ERRNO_NOTDIR)));
        assert!(matches!(state.path_readlink(fd, 0, 0), Plan::Done(ERRNO_NOTDIR)));
    }
}

#[test]
fn opening_fills_the_table() {
    let mut state = started();
    for handle in 0..123u32 {
        assert_eq!(state.path_open_finish(0, Ok(1000 + handle)).0, Ok(5 + handle));
    }
    assert_eq!(state.descriptor_count(), 128);
    // no room: the file that was opened goes back to the host
    let (result, released) = state.path_open_finish(0, Ok(5000));
    assert_eq!(result, Err(ERRNO_NOMEM));
    assert_eq!(released.descriptor, Some(5000));
    assert_eq!(state.path_open_finish(0, Err(ErrorCode::NoEntry)).0, Err(44));
    assert_eq!(state.push_desc(Descriptor::Stderr), Err(ERRNO_NOMEM));
    state.fd_close(100);
    assert_eq!(state.path_open_finish(FDFLAGS_APPEND, Ok(5001)).0, Ok(100));
    assert_eq!(state.get_file(100).map(|f| (f.fd, f.position, f.append)), Ok((5001, 0, true)));
}

#[test]
fn reading_a_link() {
    let state = started();
    assert!(matches!(
        state.path_readlink(3, 0x700, 10),
        Plan::Finish(HostCall::ReadlinkAt { fd: 60, into: ResultBuffer::PathScratch })
    ));
    assert!(matches!(
        state.path_readlink(3, 0x700, 4095),
        Plan::Finish(HostCall::ReadlinkAt { fd: 60, into: ResultBuffer::PathScratch })
    ));
    assert!(matches!(
        state.path_readlink(3, 0x700, 4096),
        Plan::Finish(HostCall::ReadlinkAt {
            fd: 60,
            into: ResultBuffer::Caller { ptr: 0x700, len: 4096 }
        })
    ));
    assert_eq!(path_readlink_finish(10, Ok(b"target".to_vec())), Ok((6, b"target".to_vec())));
    assert_eq!(path_readlink_finish(6, Ok(b"target".to_vec())), Ok((6, b"target".to_vec())));
    // a target that does not fit is cut, and its whole length is reported
    assert_eq!(path_readlink_finish(4, Ok(b"target".to_vec())), Ok((6, b"targ".to_vec())));
    assert_eq!(path_readlink_finish(0, Ok(b"target".to_vec())), Ok((6, Vec::new())));
    assert_eq!(path_readlink_finish(10, Err(ErrorCode::Invalid)), Err(ERRNO_INVAL));
}

#[test]
fn clocks() {
    let mut state = started();
    assert!(matches!(
        state.clock_time_get(READY, CLOCKID_MONOTONIC, 0),
        Plan::Fetch(HostCall::InstanceMonotonicClock)
    ));
    assert!(matches!(
        state.clock_res_get(CLOCKID_REALTIME),
        Plan::Fetch(HostCall::InstanceWallClock)
    ));
    state.init_instance_monotonic_clock(5);
    state.init_instance_wall_clock(6);
    assert!(matches!(
        state.clock_time_get(READY, CLOCKID_MONOTONIC, 0),
        Plan::Finish(HostCall::MonotonicNow { clock: 5 })
    ));
    assert!(matches!(
        state.clock_time_get(READY, CLOCKID_REALTIME, 0),
        Plan::Finish(HostCall::WallNow { clock: 6 })
    ));
    assert!(matches!(
        state.clock_res_get(CLOCKID_MONOTONIC),
        Plan::Finish(HostCall::MonotonicResolution { clock: 5 })
    ));
    assert!(matches!(
        state.clock_res_get(CLOCKID_REALTIME),
        Plan::Finish(HostCall::WallResolution { clock: 6 })
    ));
    assert!(matches!(
        state.clock_time_get(READY, CLOCKID_PROCESS_CPUTIME_ID, 0),
        Plan::Done(Err(ERRNO_INVAL))
    ));
    assert!(matches!(state.clock_res_get(3), Plan::Done(Err(ERRNO_INVAL))));
    // while the state cannot be used, every clock reads zero
    assert!(matches!(
        state.clock_time_get(AllocationState::StackAllocating, CLOCKID_REALTIME, 0),
        Plan::Done(Ok(0))
    ));
    assert!(matches!(
        state.clock_time_get(AllocationState::StateAllocating, 9, 0),
        Plan::Done(Ok(0))
    ));
    assert_eq!(wall_time_to_timestamp(Datetime { seconds: 2, nanoseconds: 3 }), Ok(2_000_000_003));
    assert_eq!(
        wall_time_to_timestamp(Datetime { seconds: 18_446_744_073, nanoseconds: 709_551_615 }),
        Ok(u64::MAX)
    );
    assert_eq!(
        wall_time_to_timestamp(Datetime { seconds: 18_446_744_073, nanoseconds: 709_551_616 }),
        Err(ERRNO_OVERFLOW)
    );
    assert_eq!(
        wall_time_to_timestamp(Datetime { seconds: 18_446_744_074, nanoseconds: 0 }),
        Err(ERRNO_OVERFLOW)
    );
}

#[test]
fn random_data() {
    let state = started();
    assert!(matches!(
        state.random_get(READY, 0x90, 32),
        Plan::Finish(HostCall::GetRandomBytes {
            len: 32,
            into: ResultBuffer::Caller { ptr: 0x90, len: 32 }
        })
    ));
    assert!(matches!(
        state.random_get(AllocationState::StackUnallocated, 0x90, 32),
        Plan::Done(ERRNO_SUCCESS)
    ));
}
