use preview1_adapter::flat;
use preview1_adapter::records::{
    parse_iovecs, parse_subscriptions, Dirent, Event, EventFdReadwrite, FdStat, Filestat, Iovec,
    Prestat, Subscription, DIRENT_SIZE, EVENT_SIZE, FDSTAT_SIZE, FILESTAT_SIZE, IOVEC_SIZE,
    PRESTAT_SIZE, SUBSCRIPTION_SIZE,
};

#[test]
fn error_codes_are_those_of_the_flat_interface() {
    assert_eq!(flat::ERRNO_SUCCESS, wasi::ERRNO_SUCCESS.raw());
    assert_eq!(flat::ERRNO_2BIG, wasi::ERRNO_2BIG.raw());
    assert_eq!(flat::ERRNO_ACCES, wasi::ERRNO_ACCES.raw());
    assert_eq!(flat::ERRNO_ADDRINUSE, wasi::ERRNO_ADDRINUSE.raw());
    assert_eq!(flat::ERRNO_ADDRNOTAVAIL, wasi::ERRNO_ADDRNOTAVAIL.raw());
    assert_eq!(flat::ERRNO_AFNOSUPPORT, wasi::ERRNO_AFNOSUPPORT.raw());
    assert_eq!(flat::ERRNO_AGAIN, wasi::ERRNO_AGAIN.raw());
    assert_eq!(flat::ERRNO_ALREADY, wasi::ERRNO_ALREADY.raw());
    assert_eq!(flat::ERRNO_BADF, wasi::ERRNO_BADF.raw());
    assert_eq!(flat::ERRNO_BADMSG, wasi::ERRNO_BADMSG.raw());
    assert_eq!(flat::ERRNO_BUSY, wasi::ERRNO_BUSY.raw());
    assert_eq!(flat::ERRNO_CANCELED, wasi::ERRNO_CANCELED.raw());
    assert_eq!(flat::ERRNO_CHILD, wasi::ERRNO_CHILD.raw());
    assert_eq!(flat::ERRNO_CONNABORTED, wasi::ERRNO_CONNABORTED.raw());
    assert_eq!(flat::ERRNO_CONNREFUSED, wasi::ERRNO_CONNREFUSED.raw());
    assert_eq!(flat::ERRNO_CONNRESET, wasi::ERRNO_CONNRESET.raw());
    assert_eq!(flat::ERRNO_DEADLK, wasi::ERRNO_DEADLK.raw());
    assert_eq!(flat::ERRNO_DESTADDRREQ, wasi::ERRNO_DESTADDRREQ.raw());
    assert_eq!(flat::ERRNO_DOM, wasi::ERRNO_DOM.raw());
    assert_eq!(flat::ERRNO_DQUOT, wasi::ERRNO_DQUOT.raw());
    assert_eq!(flat::ERRNO_EXIST, wasi::ERRNO_EXIST.raw());
    assert_eq!(flat::ERRNO_FAULT, wasi::ERRNO_FAULT.raw());
    assert_eq!(flat::ERRNO_FBIG, wasi::ERRNO_FBIG.raw());
    assert_eq!(flat::ERRNO_HOSTUNREACH, wasi::ERRNO_HOSTUNREACH.raw());
    assert_eq!(flat::ERRNO_IDRM, wasi::ERRNO_IDRM.raw());
    assert_eq!(flat::ERRNO_ILSEQ, wasi::ERRNO_ILSEQ.raw());
    assert_eq!(flat::ERRNO_INPROGRESS, wasi::ERRNO_INPROGRESS.raw());
    assert_eq!(flat::ERRNO_INTR, wasi::ERRNO_INTR.raw());
    assert_eq!(flat::ERRNO_INVAL, wasi::ERRNO_INVAL.raw());
    assert_eq!(flat::ERRNO_IO, wasi::ERRNO_IO.raw());
    assert_eq!(flat::ERRNO_ISCONN, wasi::ERRNO_ISCONN.raw());
    assert_eq!(flat::ERRNO_ISDIR, wasi::ERRNO_ISDIR.raw());
    assert_eq!(flat::ERRNO_LOOP, wasi::ERRNO_LOOP.raw());
    assert_eq!(flat::ERRNO_MFILE, wasi::ERRNO_MFILE.raw());
    assert_eq!(flat::ERRNO_MLINK, wasi::ERRNO_MLINK.raw());
    assert_eq!(flat::ERRNO_MSGSIZE, wasi::ERRNO_MSGSIZE.raw());
    assert_eq!(flat::ERRNO_MULTIHOP, wasi::ERRNO_MULTIHOP.raw());
    assert_eq!(flat::ERRNO_NAMETOOLONG, wasi::ERRNO_NAMETOOLONG.raw());
    assert_eq!(flat::ERRNO_NETDOWN, wasi::ERRNO_NETDOWN.raw());
    assert_eq!(flat::ERRNO_NETRESET, wasi::ERRNO_NETRESET.raw());
    assert_eq!(flat::ERRNO_NETUNREACH, wasi::ERRNO_NETUNREACH.raw());
    assert_eq!(flat::ERRNO_NFILE, wasi::ERRNO_NFILE.raw());
    assert_eq!(flat::ERRNO_NOBUFS, wasi::ERRNO_NOBUFS.raw());
    assert_eq!(flat::ERRNO_NODEV, wasi::ERRNO_NODEV.raw());
    assert_eq!(flat::ERRNO_NOENT, wasi::ERRNO_NOENT.raw());
    assert_eq!(flat::ERRNO_NOEXEC, wasi::ERRNO_NOEXEC.raw());
    assert_eq!(flat::ERRNO_NOLCK, wasi::ERRNO_NOLCK.raw());
    assert_eq!(flat::ERRNO_NOLINK, wasi::ERRNO_NOLINK.raw());
    assert_eq!(flat::ERRNO_NOMEM, wasi::ERRNO_NOMEM.raw());
    assert_eq!(flat::ERRNO_NOMSG, wasi::ERRNO_NOMSG.raw());
    assert_eq!(flat::ERRNO_NOPROTOOPT, wasi::ERRNO_NOPROTOOPT.raw());
    assert_eq!(flat::ERRNO_NOSPC, wasi::ERRNO_NOSPC.raw());
    assert_eq!(flat::ERRNO_NOSYS, wasi::ERRNO_NOSYS.raw());
    assert_eq!(flat::ERRNO_NOTCONN, wasi::ERRNO_NOTCONN.raw());
    assert_eq!(flat::ERRNO_NOTDIR, wasi::ERRNO_NOTDIR.raw());
    assert_eq!(flat::ERRNO_NOTEMPTY, wasi::ERRNO_NOTEMPTY.raw());
    assert_eq!(flat::ERRNO_NOTRECOVERABLE, wasi::ERRNO_NOTRECOVERABLE.raw());
    assert_eq!(flat::ERRNO_NOTSOCK, wasi::ERRNO_NOTSOCK.raw());
    assert_eq!(flat::ERRNO_NOTSUP, wasi::ERRNO_NOTSUP.raw());
    assert_eq!(flat::ERRNO_NOTTY, wasi::ERRNO_NOTTY.raw());
    assert_eq!(flat::ERRNO_NXIO, wasi::ERRNO_NXIO.raw());
    assert_eq!(flat::ERRNO_OVERFLOW, wasi::ERRNO_OVERFLOW.raw());
    assert_eq!(flat::ERRNO_OWNERDEAD, wasi::ERRNO_OWNERDEAD.raw());
    assert_eq!(flat::ERRNO_PERM, wasi::ERRNO_PERM.raw());
    assert_eq!(flat::ERRNO_PIPE, wasi::ERRNO_PIPE.raw());
    assert_eq!(flat::ERRNO_PROTO, wasi::ERRNO_PROTO.raw());
    assert_eq!(flat::ERRNO_PROTONOSUPPORT, wasi::ERRNO_PROTONOSUPPORT.raw());
    assert_eq!(flat::ERRNO_PROTOTYPE, wasi::ERRNO_PROTOTYPE.raw());
    assert_eq!(flat::ERRNO_RANGE, wasi::ERRNO_RANGE.raw());
    assert_eq!(flat::ERRNO_ROFS, wasi::ERRNO_ROFS.raw());
    assert_eq!(flat::ERRNO_SPIPE, wasi::ERRNO_SPIPE.raw());
    assert_eq!(flat::ERRNO_SRCH, wasi::ERRNO_SRCH.raw());
    assert_eq!(flat::ERRNO_STALE, wasi::ERRNO_STALE.raw());
    assert_eq!(flat::ERRNO_TIMEDOUT, wasi::ERRNO_TIMEDOUT.raw());
    assert_eq!(flat::ERRNO_TXTBSY, wasi::ERRNO_TXTBSY.raw());
    assert_eq!(flat::ERRNO_XDEV, wasi::ERRNO_XDEV.raw());
    assert_eq!(flat::ERRNO_NOTCAPABLE, wasi::ERRNO_NOTCAPABLE.raw());
    assert_eq!(flat::ERRNO_LAST, wasi::ERRNO_NOTCAPABLE.raw());
}

#[test]
fn rights_are_those_of_the_flat_interface() {
    assert_eq!(flat::RIGHTS_FD_DATASYNC, wasi::RIGHTS_FD_DATASYNC);
    assert_eq!(flat::RIGHTS_FD_READ, wasi::RIGHTS_FD_READ);
    assert_eq!(flat::RIGHTS_FD_SEEK, wasi::RIGHTS_FD_SEEK);
    assert_eq!(flat::RIGHTS_FD_FDSTAT_SET_FLAGS, wasi::RIGHTS_FD_FDSTAT_SET_FLAGS);
    assert_eq!(flat::RIGHTS_FD_SYNC, wasi::RIGHTS_FD_SYNC);
    assert_eq!(flat::RIGHTS_FD_TELL, wasi::RIGHTS_FD_TELL);
    assert_eq!(flat::RIGHTS_FD_WRITE, wasi::RIGHTS_FD_WRITE);
    assert_eq!(flat::RIGHTS_FD_ADVISE, wasi::RIGHTS_FD_ADVISE);
    assert_eq!(flat::RIGHTS_FD_ALLOCATE, wasi::RIGHTS_FD_ALLOCATE);
    assert_eq!(flat::RIGHTS_PATH_CREATE_DIRECTORY, wasi::RIGHTS_PATH_CREATE_DIRECTORY);
    assert_eq!(flat::RIGHTS_PATH_CREATE_FILE, wasi::RIGHTS_PATH_CREATE_FILE);
    assert_eq!(flat::RIGHTS_PATH_LINK_SOURCE, wasi::RIGHTS_PATH_LINK_SOURCE);
    assert_eq!(flat::RIGHTS_PATH_LINK_TARGET, wasi::RIGHTS_PATH_LINK_TARGET);
    assert_eq!(flat::RIGHTS_PATH_OPEN, wasi::RIGHTS_PATH_OPEN);
    assert_eq!(flat::RIGHTS_FD_READDIR, wasi::RIGHTS_FD_READDIR);
    assert_eq!(flat::RIGHTS_PATH_READLINK, wasi::RIGHTS_PATH_READLINK);
    assert_eq!(flat::RIGHTS_PATH_RENAME_SOURCE, wasi::RIGHTS_PATH_RENAME_SOURCE);
    assert_eq!(flat::RIGHTS_PATH_RENAME_TARGET, wasi::RIGHTS_PATH_RENAME_TARGET);
    assert_eq!(flat::RIGHTS_PATH_FILESTAT_GET, wasi::RIGHTS_PATH_FILESTAT_GET);
    assert_eq!(flat::RIGHTS_PATH_FILESTAT_SET_SIZE, wasi::RIGHTS_PATH_FILESTAT_SET_SIZE);
    assert_eq!(flat::RIGHTS_PATH_FILESTAT_SET_TIMES, wasi::RIGHTS_PATH_FILESTAT_SET_TIMES);
    assert_eq!(flat::RIGHTS_FD_FILESTAT_GET, wasi::RIGHTS_FD_FILESTAT_GET);
    assert_eq!(flat::RIGHTS_FD_FILESTAT_SET_SIZE, wasi::RIGHTS_FD_FILESTAT_SET_SIZE);
    assert_eq!(flat::RIGHTS_FD_FILESTAT_SET_TIMES, wasi::RIGHTS_FD_FILESTAT_SET_TIMES);
    assert_eq!(flat::RIGHTS_PATH_SYMLINK, wasi::RIGHTS_PATH_SYMLINK);
    assert_eq!(flat::RIGHTS_PATH_REMOVE_DIRECTORY, wasi::RIGHTS_PATH_REMOVE_DIRECTORY);
    assert_eq!(flat::RIGHTS_PATH_UNLINK_FILE, wasi::RIGHTS_PATH_UNLINK_FILE);
    assert_eq!(flat::RIGHTS_POLL_FD_READWRITE, wasi::RIGHTS_POLL_FD_READWRITE);
    assert_eq!(flat::RIGHTS_SOCK_SHUTDOWN, wasi::RIGHTS_SOCK_SHUTDOWN);
    assert_eq!(flat::RIGHTS_SOCK_ACCEPT, wasi::RIGHTS_SOCK_ACCEPT);
    assert_eq!(flat::RIGHTS_ALL, !0u64);
}

#[test]
fn codes_and_flags_are_those_of_the_flat_interface() {
    assert_eq!(flat::FILETYPE_UNKNOWN, wasi::FILETYPE_UNKNOWN.raw());
    assert_eq!(flat::FILETYPE_BLOCK_DEVICE, wasi::FILETYPE_BLOCK_DEVICE.raw());
    assert_eq!(flat::FILETYPE_CHARACTER_DEVICE, wasi::FILETYPE_CHARACTER_DEVICE.raw());
    assert_eq!(flat::FILETYPE_DIRECTORY, wasi::FILETYPE_DIRECTORY.raw());
    assert_eq!(flat::FILETYPE_REGULAR_FILE, wasi::FILETYPE_REGULAR_FILE.raw());
    assert_eq!(flat::FILETYPE_SOCKET_DGRAM, wasi::FILETYPE_SOCKET_DGRAM.raw());
    assert_eq!(flat::FILETYPE_SOCKET_STREAM, wasi::FILETYPE_SOCKET_STREAM.raw());
    assert_eq!(flat::FILETYPE_SYMBOLIC_LINK, wasi::FILETYPE_SYMBOLIC_LINK.raw());
    assert_eq!(flat::WHENCE_SET, wasi::WHENCE_SET.raw());
    assert_eq!(flat::WHENCE_CUR, wasi::WHENCE_CUR.raw());
    assert_eq!(flat::WHENCE_END, wasi::WHENCE_END.raw());
    assert_eq!(flat::CLOCKID_REALTIME, wasi::CLOCKID_REALTIME.raw());
    assert_eq!(flat::CLOCKID_MONOTONIC, wasi::CLOCKID_MONOTONIC.raw());
    assert_eq!(flat::CLOCKID_PROCESS_CPUTIME_ID, wasi::CLOCKID_PROCESS_CPUTIME_ID.raw());
    assert_eq!(flat::CLOCKID_THREAD_CPUTIME_ID, wasi::CLOCKID_THREAD_CPUTIME_ID.raw());
    assert_eq!(flat::EVENTTYPE_CLOCK, wasi::EVENTTYPE_CLOCK.raw());
    assert_eq!(flat::EVENTTYPE_FD_READ, wasi::EVENTTYPE_FD_READ.raw());
    assert_eq!(flat::EVENTTYPE_FD_WRITE, wasi::EVENTTYPE_FD_WRITE.raw());
    assert_eq!(flat::ADVICE_NORMAL, wasi::ADVICE_NORMAL.raw());
    assert_eq!(flat::ADVICE_SEQUENTIAL, wasi::ADVICE_SEQUENTIAL.raw());
    assert_eq!(flat::ADVICE_RANDOM, wasi::ADVICE_RANDOM.raw());
    assert_eq!(flat::ADVICE_WILLNEED, wasi::ADVICE_WILLNEED.raw());
    assert_eq!(flat::ADVICE_DONTNEED, wasi::ADVICE_DONTNEED.raw());
    assert_eq!(flat::ADVICE_NOREUSE, wasi::ADVICE_NOREUSE.raw());
    assert_eq!(flat::FDFLAGS_APPEND, wasi::FDFLAGS_APPEND);
    assert_eq!(flat::FDFLAGS_DSYNC, wasi::FDFLAGS_DSYNC);
    assert_eq!(flat::FDFLAGS_NONBLOCK, wasi::FDFLAGS_NONBLOCK);
    assert_eq!(flat::FDFLAGS_RSYNC, wasi::FDFLAGS_RSYNC);
    assert_eq!(flat::FDFLAGS_SYNC, wasi::FDFLAGS_SYNC);
    assert_eq!(flat::FSTFLAGS_ATIM, wasi::FSTFLAGS_ATIM);
    assert_eq!(flat::FSTFLAGS_ATIM_NOW, wasi::FSTFLAGS_ATIM_NOW);
    assert_eq!(flat::FSTFLAGS_MTIM, wasi::FSTFLAGS_MTIM);
    assert_eq!(flat::FSTFLAGS_MTIM_NOW, wasi::FSTFLAGS_MTIM_NOW);
    assert_eq!(flat::LOOKUPFLAGS_SYMLINK_FOLLOW, wasi::LOOKUPFLAGS_SYMLINK_FOLLOW);
    assert_eq!(flat::OFLAGS_CREAT, wasi::OFLAGS_CREAT);
    assert_eq!(flat::OFLAGS_DIRECTORY, wasi::OFLAGS_DIRECTORY);
    assert_eq!(flat::OFLAGS_EXCL, wasi::OFLAGS_EXCL);
    assert_eq!(flat::OFLAGS_TRUNC, wasi::OFLAGS_TRUNC);
    assert_eq!(flat::EVENTRWFLAGS_FD_READWRITE_HANGUP, wasi::EVENTRWFLAGS_FD_READWRITE_HANGUP);
    assert_eq!(
        flat::SUBCLOCKFLAGS_SUBSCRIPTION_CLOCK_ABSTIME,
        wasi::SUBCLOCKFLAGS_SUBSCRIPTION_CLOCK_ABSTIME
    );
    assert_eq!(flat::DIRCOOKIE_START, wasi::DIRCOOKIE_START);
    assert_eq!(flat::FD_STDIN, wasi::FD_STDIN);
    assert_eq!(flat::FD_STDOUT, wasi::FD_STDOUT);
    assert_eq!(flat::FD_STDERR, wasi::FD_STDERR);
    assert_eq!(flat::PREOPENTYPE_DIR, wasi::PREOPENTYPE_DIR.raw());
}

#[test]
fn records_have_the_size_of_the_flat_records() {
    assert_eq!(DIRENT_SIZE, core::mem::size_of::<wasi::Dirent>());
    assert_eq!(FDSTAT_SIZE, core::mem::size_of::<wasi::Fdstat>());
    assert_eq!(FILESTAT_SIZE, core::mem::size_of::<wasi::Filestat>());
    assert_eq!(EVENT_SIZE, core::mem::size_of::<wasi::Event>());
    assert_eq!(SUBSCRIPTION_SIZE, core::mem::size_of::<wasi::Subscription>());
}

#[test]
fn dirent_bytes() {
    let dirent = Dirent { d_next: 0x0102030405060708, d_ino: 0x1112131415161718, d_namlen: 0x21222324, d_type: 3 };
    assert_eq!(
        dirent.to_bytes(),
        vec![
            0x08, 0x07, 0x06, 0x05, 0x04, 0x03, 0x02, 0x01, 0x18, 0x17, 0x16, 0x15, 0x14, 0x13,
            0x12, 0x11, 0x24, 0x23, 0x22, 0x21, 3, 0, 0, 0
        ]
    );
}

#[test]
fn dirent_is_read_from_its_bytes() {
    let dirent = Dirent { d_next: u64::MAX - 1, d_ino: 77, d_namlen: 0x01020304, d_type: 7 };
    let mut bytes = vec![9u8, 9, 9];
    bytes.extend_from_slice(&dirent.to_bytes());
    bytes.extend_from_slice(b"name");
    assert_eq!(Dirent::parse(&bytes, 3), dirent);
    for d in [
        Dirent { d_next: 0, d_ino: 0, d_namlen: 0, d_type: 0 },
        Dirent { d_next: 1, d_ino: u64::MAX, d_namlen: u32::MAX, d_type: 255 },
        Dirent { d_next: 0x0123456789abcdef, d_ino: 0xfedcba9876543210, d_namlen: 4096, d_type: 3 },
    ] {
        assert_eq!(Dirent::parse(&d.to_bytes(), 0), d);
    }
}

#[test]
fn fdstat_bytes() {
    let stat = FdStat {
        fs_filetype: 4,
        fs_flags: 0x0105,
        fs_rights_base: 0x0102030405060708,
        fs_rights_inheriting: 0xfffffffffffffffd,
    };
    assert_eq!(
        stat.to_bytes(),
        vec![
            4, 0, 0x05, 0x01, 0, 0, 0, 0, 0x08, 0x07, 0x06, 0x05, 0x04, 0x03, 0x02, 0x01, 0xfd,
            0xff, 0xff, 0xff, 0xff, 0xff, 0xff, 0xff
        ]
    );
}

#[test]
fn filestat_bytes() {
    let stat = Filestat { dev: 1, ino: 2, filetype: 4, nlink: 3, size: 0x0100, atim: 5, mtim: 6, ctim: 7 };
    let bytes = stat.to_bytes();
    assert_eq!(bytes.len(), 64);
    assert_eq!(&bytes[0..8], &[1, 0, 0, 0, 0, 0, 0, 0]);
    assert_eq!(&bytes[8..16], &[2, 0, 0, 0, 0, 0, 0, 0]);
    assert_eq!(&bytes[16..24], &[4, 0, 0, 0, 0, 0, 0, 0]);
    assert_eq!(&bytes[24..32], &[3, 0, 0, 0, 0, 0, 0, 0]);
    assert_eq!(&bytes[32..40], &[0, 1, 0, 0, 0, 0, 0, 0]);
    assert_eq!(&bytes[40..48], &[5, 0, 0, 0, 0, 0, 0, 0]);
    assert_eq!(&bytes[48..56], &[6, 0, 0, 0, 0, 0, 0, 0]);
    assert_eq!(&bytes[56..64], &[7, 0, 0, 0, 0, 0, 0, 0]);
}

#[test]
fn event_bytes() {
    let event = Event {
        userdata: 0x0807060504030201,
        error: 8,
        type_: 1,
        fd_readwrite: EventFdReadwrite { nbytes: 0x0a, flags: 1 },
    };
    assert_eq!(
        event.to_bytes(),
        vec![
            1, 2, 3, 4, 5, 6, 7, 8, 8, 0, 1, 0, 0, 0, 0, 0, 0x0a, 0, 0, 0, 0, 0, 0, 0, 1, 0, 0, 0,
            0, 0, 0, 0
        ]
    );
}

#[test]
fn subscription_is_read_from_its_bytes() {
    let mut bytes = vec![0xeeu8; 4];
    // userdata
    bytes.extend_from_slice(&[1, 2, 3, 4, 5, 6, 7, 8]);
    // tag and padding
    bytes.extend_from_slice(&[0, 9, 9, 9, 9, 9, 9, 9]);
    // clock id and padding
    bytes.extend_from_slice(&[1, 0, 0, 0, 9, 9, 9, 9]);
    // timeout
    bytes.extend_from_slice(&[0, 0xca, 0x9a, 0x3b, 0, 0, 0, 0]);
    // precision
    bytes.extend_from_slice(&[7, 0, 0, 0, 0, 0, 0, 0]);
    // flags and padding
    bytes.extend_from_slice(&[1, 0, 9, 9, 9, 9, 9, 9]);
    let sub = Subscription::parse(&bytes, 4);
    assert_eq!(
        sub,
        Subscription {
            userdata: 0x0807060504030201,
            tag: 0,
            id: 1,
            timeout: 1_000_000_000,
            precision: 7,
            flags: 1
        }
    );
}

#[test]
fn lists_are_read_record_by_record() {
    let bytes: Vec<u8> = vec![
        0x10, 0, 0, 0, 4, 0, 0, 0, // a buffer of 4 bytes at 0x10
        0, 0, 0, 0, 0, 0, 0, 0, // an empty buffer
        0x78, 0x56, 0x34, 0x12, 0xff, 0xff, 0, 0,
        9, 9, // what lies behind the list
    ];
    assert_eq!(IOVEC_SIZE, 8);
    assert_eq!(
        parse_iovecs(&bytes, 3),
        vec![
            Iovec { buf: 0x10, buf_len: 4 },
            Iovec { buf: 0, buf_len: 0 },
            Iovec { buf: 0x12345678, buf_len: 0xffff },
        ]
    );
    assert_eq!(parse_iovecs(&bytes, 1), vec![Iovec { buf: 0x10, buf_len: 4 }]);
    assert_eq!(parse_iovecs(&bytes, 0), Vec::new());
    assert_eq!(Iovec::parse(&bytes, 16), Iovec { buf: 0x12345678, buf_len: 0xffff });

    let mut subs = vec![0u8; 96];
    subs[0] = 1;
    subs[8] = 2;
    subs[16] = 3;
    subs[48] = 4;
    subs[48 + 8] = 0;
    subs[48 + 16] = 1;
    subs[48 + 24] = 100;
    subs[48 + 40] = 1;
    let list = parse_subscriptions(&subs, 2);
    assert_eq!(
        list,
        vec![
            Subscription { userdata: 1, tag: 2, id: 3, timeout: 0, precision: 0, flags: 0 },
            Subscription { userdata: 4, tag: 0, id: 1, timeout: 100, precision: 0, flags: 1 },
        ]
    );
}

#[test]
fn prestat_bytes() {
    assert_eq!(PRESTAT_SIZE, 8);
    let prestat = Prestat { tag: 0, pr_name_len: 0x0102 };
    assert_eq!(prestat.to_bytes(), vec![0, 0, 0, 0, 2, 1, 0, 0]);
}
