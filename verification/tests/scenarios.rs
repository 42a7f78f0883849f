use preview1_adapter::capability::{
    Datetime, DescriptorStat, DescriptorType, ErrorCode, HostCall, Plan,
};
use preview1_adapter::descriptor::{Descriptor, Released};
use preview1_adapter::flat::{
    ERRNO_BADF, ERRNO_EXIST, ERRNO_INTR, ERRNO_INVAL, ERRNO_NOENT, ERRNO_NOTDIR, ERRNO_SPIPE,
    ERRNO_SUCCESS, FDFLAGS_APPEND, FDFLAGS_SYNC, OFLAGS_CREAT, OFLAGS_EXCL, RIGHTS_FD_READ,
    RIGHTS_FD_WRITE, WHENCE_CUR, WHENCE_END, WHENCE_SET,
};
use preview1_adapter::records::Iovec;
use preview1_adapter::state::fd_calls::{errno_of_reply, filestat_result};
use preview1_adapter::state::{AllocationState, State};
use preview1_adapter::strings::{Preopen, PreopenList, WasmStr};

/// A file of the host behind the capability interface.
struct Node {
    name: Vec<u8>,
    data: Vec<u8>,
    inode: u64,
}

/// A small host: one directory with files, and the streams that are open.
struct Host {
    nodes: Vec<Node>,
    /// handle -> node; the root directory is `None`
    descriptors: Vec<(u32, Option<usize>)>,
    inputs: Vec<(u32, usize, u64)>,
    /// stream, node, offset; without an offset the stream appends
    outputs: Vec<(u32, usize, Option<u64>)>,
    next_handle: u32,
    released: Vec<HostCall>,
}

const ROOT: u32 = 100;

impl Host {
    fn new() -> Host {
        Host {
            nodes: Vec::new(),
            descriptors: vec![(ROOT, None)],
            inputs: Vec::new(),
            outputs: Vec::new(),
            next_handle: 200,
            released: Vec::new(),
        }
    }

    fn handle(&mut self) -> u32 {
        self.next_handle += 1;
        self.next_handle
    }

    fn node_of(&self, handle: u32) -> Option<usize> {
        self.descriptors.iter().find(|(h, _)| *h == handle).and_then(|(_, n)| *n)
    }

    fn file(&self, name: &str) -> &Vec<u8> {
        &self.nodes.iter().find(|n| n.name == name.as_bytes()).unwrap().data
    }

    fn open_at(&mut self, call: HostCall, path: &[u8]) -> Result<u32, ErrorCode> {
        let (dir, o_flags) = match call {
            HostCall::OpenAt { fd, o_flags, .. } => (fd, o_flags),
            other => panic!("{:?}", other),
        };
        assert_eq!(dir, ROOT);
        let found = self.nodes.iter().position(|n| n.name == path);
        let node = match found {
            Some(_) if o_flags.create && o_flags.exclusive => return Err(ErrorCode::Exist),
            Some(node) => node,
            None if o_flags.create => {
                let inode = 1000 + self.nodes.len() as u64;
                self.nodes.push(Node { name: path.to_vec(), data: Vec::new(), inode });
                self.nodes.len() - 1
            }
            None => return Err(ErrorCode::NoEntry),
        };
        if o_flags.truncate {
            self.nodes[node].data.clear();
        }
        let handle = self.handle();
        self.descriptors.push((handle, Some(node)));
        Ok(handle)
    }

    fn create_stream(&mut self, call: HostCall) -> u32 {
        let handle = self.handle();
        match call {
            HostCall::ReadViaStream { fd, offset } => {
                let node = self.node_of(fd).unwrap();
                self.inputs.push((handle, node, offset));
            }
            HostCall::WriteViaStream { fd, offset } => {
                let node = self.node_of(fd).unwrap();
                self.outputs.push((handle, node, Some(offset)));
            }
            HostCall::AppendViaStream { fd } => {
                let node = self.node_of(fd).unwrap();
                self.outputs.push((handle, node, None));
            }
            other => panic!("{:?}", other),
        }
        handle
    }

    fn stream_read(&mut self, call: HostCall) -> Result<(Vec<u8>, bool), ()> {
        let (stream, len) = match call {
            HostCall::StreamRead { stream, len, .. } => (stream, len as usize),
            other => panic!("{:?}", other),
        };
        let at = self.inputs.iter().position(|(s, _, _)| *s == stream).ok_or(())?;
        let (_, node, offset) = self.inputs[at];
        let data = &self.nodes[node].data;
        let start = (offset as usize).min(data.len());
        let end = (start + len).min(data.len());
        self.inputs[at].2 = end as u64;
        Ok((data[start..end].to_vec(), end == data.len()))
    }

    fn stream_write(&mut self, call: HostCall, bytes: &[u8]) -> Result<u32, ()> {
        let stream = match call {
            HostCall::StreamWrite { stream, buf_len, .. } => {
                assert_eq!(buf_len, bytes.len());
                stream
            }
            other => panic!("{:?}", other),
        };
        let at = self.outputs.iter().position(|(s, _, _)| *s == stream).ok_or(())?;
        let (_, node, offset) = self.outputs[at];
        let data = &mut self.nodes[node].data;
        let start = match offset {
            Some(offset) => offset as usize,
            None => data.len(),
        };
        if data.len() < start + bytes.len() {
            data.resize(start + bytes.len(), 0);
        }
        data[start..start + bytes.len()].copy_from_slice(bytes);
        if offset.is_some() {
            self.outputs[at].2 = Some((start + bytes.len()) as u64);
        }
        Ok(bytes.len() as u32)
    }

    fn stat(&self, call: HostCall) -> Result<DescriptorStat, ErrorCode> {
        let fd = match call {
            HostCall::Stat { fd } => fd,
            other => panic!("{:?}", other),
        };
        let zero = Datetime { seconds: 0, nanoseconds: 0 };
        let (type_, size, inode) = match self.node_of(fd) {
            Some(node) => {
                (DescriptorType::RegularFile, self.nodes[node].data.len() as u64, self.nodes[node].inode)
            }
            None => (DescriptorType::Directory, 0, 1),
        };
        Ok(DescriptorStat {
            device: 0,
            inode,
            type_,
            link_count: 1,
            size,
            data_access_timestamp: zero,
            data_modification_timestamp: zero,
            status_change_timestamp: zero,
        })
    }

    fn release(&mut self, released: Released) {
        if let Some(stream) = released.input {
            self.inputs.retain(|(s, _, _)| *s != stream);
            self.released.push(HostCall::DropInputStream { stream });
        }
        if let Some(stream) = released.output {
            self.outputs.retain(|(s, _, _)| *s != stream);
            self.released.push(HostCall::DropOutputStream { stream });
        }
        if let Some(fd) = released.descriptor {
            self.descriptors.retain(|(h, _)| *h != fd);
            self.released.push(HostCall::DropDescriptor { fd });
        }
        if let Some(stream) = released.directory_stream {
            self.released.push(HostCall::DropDirectoryEntryStream { stream });
        }
    }
}

fn started() -> (State, Host) {
    let mut state = State::new(0);
    let preopens = PreopenList::new(vec![Preopen::new(ROOT, WasmStr::new(b"/".to_vec()))]);
    state.start_command(1, 2, 3, Vec::new(), preopens);
    (state, Host::new())
}

fn open(state: &mut State, host: &mut Host, path: &str, oflags: u16, fdflags: u16) -> Result<u32, u16> {
    let rights = RIGHTS_FD_READ | RIGHTS_FD_WRITE;
    match state.path_open(3, 0, oflags, rights, 0, fdflags) {
        Plan::Done(errno) => Err(errno),
        Plan::Finish(call) => {
            let reply = host.open_at(call, path.as_bytes());
            let (result, released) = state.path_open_finish(fdflags, reply);
            host.release(released);
            result
        }
        Plan::Fetch(call) => panic!("{:?}", call),
    }
}

fn write(state: &mut State, host: &mut Host, fd: u32, bytes: &[u8]) -> Result<usize, u16> {
    let iovs = vec![Iovec { buf: 0, buf_len: 0 }, Iovec { buf: 0x1000, buf_len: bytes.len() }];
    loop {
        match state.fd_write(AllocationState::StateAllocated, fd, &iovs) {
            Plan::Done(result) => return result,
            Plan::Fetch(call) => {
                let stream = host.create_stream(call);
                state.set_write_stream(fd, stream);
            }
            Plan::Finish(call) => {
                let reply = host.stream_write(call, bytes);
                return state.fd_write_finish(fd, bytes.len(), reply);
            }
        }
    }
}

fn read(state: &mut State, host: &mut Host, fd: u32, len: usize) -> Result<Vec<u8>, u16> {
    let iovs = vec![Iovec { buf: 0x2000, buf_len: len }];
    loop {
        match state.fd_read(fd, &iovs) {
            Plan::Done(result) => return result.map(|_| Vec::new()),
            Plan::Fetch(call) => {
                let stream = host.create_stream(call);
                state.set_read_stream(fd, stream);
            }
            Plan::Finish(call) => {
                assert!(matches!(call, HostCall::StreamRead { len: asked, .. } if asked == len as u64));
                let reply = host.stream_read(call);
                let data = reply.clone().map(|(data, _)| data).unwrap_or_default();
                let result = state.fd_read_finish(fd, reply.map(|(data, end)| (data.len(), end)));
                return result.map(|n| data[..n].to_vec());
            }
        }
    }
}

fn seek(state: &mut State, host: &mut Host, fd: u32, offset: i64, whence: u8) -> Result<u64, u16> {
    let result = match state.fd_seek(fd, offset, whence) {
        Plan::Done(result) => result,
        Plan::Finish(call) => {
            let reply = host.stat(call);
            state.fd_seek_end(fd, offset, reply)
        }
        Plan::Fetch(call) => panic!("{:?}", call),
    };
    result.map(|(position, released)| {
        host.release(released);
        position
    })
}

fn set_flags(state: &mut State, host: &mut Host, fd: u32, flags: u16) -> u16 {
    match state.fd_fdstat_set_flags(fd, flags) {
        Plan::Done(errno) => errno,
        Plan::Finish(call) => {
            assert!(matches!(call, HostCall::SetFlags { .. }));
            let (errno, released) = state.fd_fdstat_set_flags_finish(fd, flags, Ok(()));
            host.release(released);
            errno
        }
        Plan::Fetch(call) => panic!("{:?}", call),
    }
}

fn close(state: &mut State, host: &mut Host, fd: u32) -> u16 {
    let (errno, released) = state.fd_close(fd);
    host.release(released);
    errno
}

#[test]
fn written_data_is_read_back() {
    let (mut state, mut host) = started();
    let text = b"'Twas brillig, and the slithy toves.\n";
    let fd = open(&mut state, &mut host, "jabberwocky", OFLAGS_CREAT, 0).unwrap();
    assert_eq!(write(&mut state, &mut host, fd, text), Ok(text.len()));
    assert_eq!(state.fd_tell(fd), Ok(text.len() as u64));
    assert_eq!(seek(&mut state, &mut host, fd, 0, WHENCE_SET), Ok(0));
    assert_eq!(state.fd_tell(fd), Ok(0));
    assert_eq!(read(&mut state, &mut host, fd, text.len()), Ok(text.to_vec()));
    assert_eq!(state.fd_tell(fd), Ok(text.len() as u64));
    assert_eq!(host.file("jabberwocky"), &text.to_vec());
}

#[test]
fn append_mode_ignores_seek_for_writes() {
    let (mut state, mut host) = started();
    let fd = open(&mut state, &mut host, "log", OFLAGS_CREAT, FDFLAGS_APPEND).unwrap();
    assert_eq!(write(&mut state, &mut host, fd, b"Did gyre "), Ok(9));
    assert_eq!(seek(&mut state, &mut host, fd, 0, WHENCE_SET), Ok(0));
    assert_eq!(write(&mut state, &mut host, fd, b"and gimble"), Ok(10));
    // the second write landed behind the first, not at the position sought
    assert_eq!(host.file("log"), &b"Did gyre and gimble".to_vec());
    assert_eq!(&host.file("log")[9..], b"and gimble");
    // a write in append mode leaves the position where it is
    assert_eq!(state.fd_tell(fd), Ok(0));
    assert_eq!(read(&mut state, &mut host, fd, 100), Ok(b"Did gyre and gimble".to_vec()));
}

#[test]
fn clearing_the_append_flag_lets_writes_land_at_the_position() {
    let (mut state, mut host) = started();
    let fd = open(&mut state, &mut host, "log", OFLAGS_CREAT, FDFLAGS_APPEND).unwrap();
    assert_eq!(write(&mut state, &mut host, fd, b"0123456789"), Ok(10));
    assert_eq!(seek(&mut state, &mut host, fd, 3, WHENCE_SET), Ok(3));
    assert_eq!(write(&mut state, &mut host, fd, b"abc"), Ok(3));
    assert_eq!(host.file("log"), &b"0123456789abc".to_vec());

    assert_eq!(set_flags(&mut state, &mut host, fd, 0), ERRNO_SUCCESS);
    assert_eq!(seek(&mut state, &mut host, fd, 3, WHENCE_SET), Ok(3));
    assert_eq!(write(&mut state, &mut host, fd, b"XYZ"), Ok(3));
    assert_eq!(host.file("log"), &b"012XYZ6789abc".to_vec());
    assert_eq!(state.fd_tell(fd), Ok(6));

    // and setting it again makes writes append again
    assert_eq!(set_flags(&mut state, &mut host, fd, FDFLAGS_APPEND | FDFLAGS_SYNC), ERRNO_SUCCESS);
    assert_eq!(write(&mut state, &mut host, fd, b"!"), Ok(1));
    assert_eq!(host.file("log"), &b"012XYZ6789abc!".to_vec());
    assert_eq!(state.fd_tell(fd), Ok(6));
}

#[test]
fn clearing_the_append_flag_drops_the_output_stream() {
    let (mut state, mut host) = started();
    let fd = open(&mut state, &mut host, "log", OFLAGS_CREAT, FDFLAGS_APPEND).unwrap();
    write(&mut state, &mut host, fd, b"abc").unwrap();
    let output = match state.get(fd) {
        Ok(Descriptor::Streams(streams)) => streams.output.unwrap(),
        other => panic!("{:?}", other),
    };
    // the flag stays: the stream stays
    assert_eq!(set_flags(&mut state, &mut host, fd, FDFLAGS_APPEND), ERRNO_SUCCESS);
    assert!(host.released.is_empty());
    assert_eq!(set_flags(&mut state, &mut host, fd, 0), ERRNO_SUCCESS);
    assert_eq!(host.released, vec![HostCall::DropOutputStream { stream: output }]);
    // a failed change leaves everything as it is
    let (errno, released) = state.fd_fdstat_set_flags_finish(fd, FDFLAGS_APPEND, Err(ErrorCode::NotPermitted));
    assert_eq!(errno, 63);
    assert_eq!(released, preview1_adapter::descriptor::nothing_released());
    assert_eq!(state.get_file(fd).map(|f| f.append), Ok(false));
    assert_eq!(set_flags(&mut state, &mut host, 1000, 0), ERRNO_BADF);
    assert_eq!(set_flags(&mut state, &mut host, 0, 0), ERRNO_INVAL);
}

#[test]
fn open_reports_a_missing_file() {
    let (mut state, mut host) = started();
    assert_eq!(open(&mut state, &mut host, "does-not-exist", 0, 0), Err(ERRNO_NOENT));
    assert_eq!(state.descriptor_count(), 4);
    let fd = open(&mut state, &mut host, "does-not-exist", OFLAGS_CREAT, 0).unwrap();
    // a descriptor that was never used before
    assert_eq!(fd, 4);
    assert_eq!(state.descriptor_count(), 5);
    assert_eq!(state.get_file(fd).map(|f| (f.position, f.append)), Ok((0, false)));
    assert_eq!(open(&mut state, &mut host, "does-not-exist", 0, 0), Ok(5));
    assert_eq!(
        open(&mut state, &mut host, "does-not-exist", OFLAGS_CREAT | OFLAGS_EXCL, 0),
        Err(ERRNO_EXIST)
    );
    // not below a directory
    assert!(matches!(state.path_open(0, 0, 0, 0, 0, 0), Plan::Done(ERRNO_NOTDIR)));
    assert!(matches!(state.path_open(2, 0, 0, 0, 0, 0), Plan::Done(ERRNO_NOTDIR)));
    assert!(matches!(state.path_open(77, 0, 0, 0, 0, 0), Plan::Done(ERRNO_BADF)));
}

#[test]
fn closed_descriptor_is_reused() {
    let (mut state, mut host) = started();
    let a = open(&mut state, &mut host, "a", OFLAGS_CREAT, 0).unwrap();
    let b = open(&mut state, &mut host, "b", OFLAGS_CREAT, 0).unwrap();
    let c = open(&mut state, &mut host, "c", OFLAGS_CREAT, 0).unwrap();
    assert_eq!((a, b, c), (4, 5, 6));
    write(&mut state, &mut host, b, b"bb").unwrap();
    assert_eq!(close(&mut state, &mut host, b), ERRNO_SUCCESS);
    // the streams and the file of the descriptor went back to the host
    assert_eq!(host.released.len(), 2);
    assert!(matches!(host.released[0], HostCall::DropOutputStream { .. }));
    assert!(matches!(host.released[1], HostCall::DropDescriptor { .. }));
    assert_eq!(state.fd_tell(b), Err(ERRNO_BADF));
    assert_eq!(read(&mut state, &mut host, b, 1), Err(ERRNO_BADF));
    let d = open(&mut state, &mut host, "d", OFLAGS_CREAT, 0).unwrap();
    assert_eq!(d, b);
    assert_eq!(state.fd_tell(d), Ok(0));
    assert_eq!(close(&mut state, &mut host, 99), ERRNO_BADF);
    // closing succeeds for every slot, whatever it holds
    assert_eq!(close(&mut state, &mut host, 2), ERRNO_SUCCESS);
    assert_eq!(close(&mut state, &mut host, 2), ERRNO_SUCCESS);
    assert_eq!(open(&mut state, &mut host, "e", OFLAGS_CREAT, 0), Ok(2));
    assert_eq!(open(&mut state, &mut host, "f", OFLAGS_CREAT, 0), Ok(7));
}

#[test]
fn renumbered_descriptor_behaves_as_the_one_it_came_from() {
    let (mut state, mut host) = started();
    let a = open(&mut state, &mut host, "a", OFLAGS_CREAT, 0).unwrap();
    let b = open(&mut state, &mut host, "b", OFLAGS_CREAT, 0).unwrap();
    write(&mut state, &mut host, a, b"from a").unwrap();
    write(&mut state, &mut host, b, b"b").unwrap();
    let before = state.get(a);
    let (errno, released) = state.fd_renumber(a, b);
    assert_eq!(errno, ERRNO_SUCCESS);
    // what b referred to went back to the host
    assert!(released.descriptor.is_some());
    assert!(released.output.is_some());
    host.release(released);
    assert_eq!(state.get(b), before);
    assert_eq!(state.fd_tell(b), Ok(6));
    assert_eq!(write(&mut state, &mut host, b, b", still"), Ok(7));
    assert_eq!(host.file("a"), &b"from a, still".to_vec());
    assert_eq!(host.file("b"), &b"b".to_vec());
    assert_eq!(seek(&mut state, &mut host, b, 0, WHENCE_SET), Ok(0));
    assert_eq!(read(&mut state, &mut host, b, 4), Ok(b"from".to_vec()));
    // the old number is a bad descriptor for every operation
    assert_eq!(state.fd_tell(a), Err(ERRNO_BADF));
    assert_eq!(read(&mut state, &mut host, a, 4), Err(ERRNO_BADF));
    assert_eq!(write(&mut state, &mut host, a, b"x"), Err(ERRNO_BADF));
    assert_eq!(seek(&mut state, &mut host, a, 0, WHENCE_SET), Err(ERRNO_BADF));
    assert!(matches!(state.fd_sync(a), Plan::Done(ERRNO_BADF)));
    assert!(matches!(state.fd_datasync(a), Plan::Done(ERRNO_BADF)));
    assert!(matches!(state.fd_filestat_get(a), Plan::Done(ERRNO_BADF)));
    assert!(matches!(state.fd_fdstat_get(a), Plan::Done(Err(ERRNO_BADF))));
    assert!(matches!(state.path_create_directory(a), Plan::Done(ERRNO_BADF)));
    assert_eq!(state.fd_renumber(a, 0).0, ERRNO_BADF);
    assert_eq!(set_flags(&mut state, &mut host, a, 0), ERRNO_BADF);
}

#[test]
fn seeking() {
    let (mut state, mut host) = started();
    let fd = open(&mut state, &mut host, "f", OFLAGS_CREAT, 0).unwrap();
    write(&mut state, &mut host, fd, b"0123456789").unwrap();
    assert_eq!(seek(&mut state, &mut host, fd, -4, WHENCE_CUR), Ok(6));
    assert_eq!(read(&mut state, &mut host, fd, 2), Ok(b"67".to_vec()));
    assert_eq!(seek(&mut state, &mut host, fd, 1, WHENCE_CUR), Ok(9));
    assert_eq!(seek(&mut state, &mut host, fd, -3, WHENCE_END), Ok(7));
    assert_eq!(read(&mut state, &mut host, fd, 10), Ok(b"789".to_vec()));
    assert_eq!(seek(&mut state, &mut host, fd, 5, WHENCE_END), Ok(15));
    assert_eq!(seek(&mut state, &mut host, fd, 0, 3), Err(ERRNO_INVAL));
    assert_eq!(state.fd_tell(fd), Ok(15));
    // a position before the start of the file wraps around
    assert_eq!(seek(&mut state, &mut host, fd, -1, WHENCE_SET), Ok(u64::MAX));
    assert_eq!(seek(&mut state, &mut host, fd, 2, WHENCE_CUR), Ok(1));
    // only files can seek
    assert_eq!(seek(&mut state, &mut host, 0, 0, WHENCE_SET), Err(ERRNO_SPIPE));
    assert_eq!(seek(&mut state, &mut host, 0, 0, 9), Err(ERRNO_SPIPE));
    assert_eq!(seek(&mut state, &mut host, 50, 0, WHENCE_SET), Err(ERRNO_BADF));
    assert_eq!(state.fd_tell(0), Err(ERRNO_SPIPE));
    // a failed stat fails the seek from the end and moves nothing
    assert_eq!(state.fd_seek_end(fd, 0, Err(ErrorCode::Io)).map(|r| r.0), Err(29));
    assert_eq!(state.fd_tell(fd), Ok(1));
}

#[test]
fn seek_gives_up_the_streams() {
    let (mut state, mut host) = started();
    let fd = open(&mut state, &mut host, "f", OFLAGS_CREAT, 0).unwrap();
    write(&mut state, &mut host, fd, b"abc").unwrap();
    read(&mut state, &mut host, fd, 1).unwrap();
    let streams = match state.get(fd) {
        Ok(Descriptor::Streams(streams)) => streams,
        other => panic!("{:?}", other),
    };
    assert!(streams.input.is_some() && streams.output.is_some());
    assert_eq!(seek(&mut state, &mut host, fd, 1, WHENCE_SET), Ok(1));
    assert_eq!(
        host.released,
        vec![
            HostCall::DropInputStream { stream: streams.input.unwrap() },
            HostCall::DropOutputStream { stream: streams.output.unwrap() },
        ]
    );
    match state.get(fd) {
        Ok(Descriptor::Streams(streams)) => {
            assert_eq!(streams.input, None);
            assert_eq!(streams.output, None);
        }
        other => panic!("{:?}", other),
    }
    assert_eq!(write(&mut state, &mut host, fd, b"Z"), Ok(1));
    assert_eq!(host.file("f"), &b"aZc".to_vec());
}

#[test]
fn reads_report_interruptions_and_ends() {
    let (mut state, mut host) = started();
    let fd = open(&mut state, &mut host, "f", OFLAGS_CREAT, 0).unwrap();
    assert_eq!(read(&mut state, &mut host, fd, 10), Ok(Vec::new()));
    // nothing read before the end of the stream is an interruption
    assert_eq!(state.fd_read_finish(fd, Ok((0, false))), Err(ERRNO_INTR));
    assert_eq!(state.fd_read_finish(fd, Ok((0, true))), Ok(0));
    assert_eq!(state.fd_read_finish(fd, Ok((5, false))), Ok(5));
    assert_eq!(state.fd_tell(fd), Ok(5));
    assert_eq!(state.fd_read_finish(fd, Err(())), Err(29));
    assert_eq!(state.fd_tell(fd), Ok(5));
    // without a buffer that is not empty nothing is read
    let empty = vec![Iovec { buf: 1, buf_len: 0 }, Iovec { buf: 2, buf_len: 0 }];
    assert!(matches!(state.fd_read(fd, &empty), Plan::Done(Ok(0))));
    assert!(matches!(state.fd_read(fd, &Vec::new()), Plan::Done(Ok(0))));
    assert!(matches!(state.fd_read(999, &empty), Plan::Done(Ok(0))));
    assert!(matches!(
        state.fd_write(AllocationState::StateAllocated, fd, &empty),
        Plan::Done(Ok(0))
    ));
    assert!(matches!(state.fd_pread(fd, &empty, 0), Plan::Done(Ok(0))));
    assert!(matches!(state.fd_pwrite(fd, &empty, 0), Plan::Done(Ok(0))));
}

#[test]
fn attributes() {
    let (mut state, mut host) = started();
    let fd = open(&mut state, &mut host, "f", OFLAGS_CREAT, 0).unwrap();
    write(&mut state, &mut host, fd, b"12345").unwrap();
    let call = match state.fd_filestat_get(fd) {
        Plan::Finish(call) => call,
        other => panic!("{:?}", other),
    };
    let stat = filestat_result(host.stat(call)).unwrap();
    assert_eq!(stat.size, 5);
    assert_eq!(stat.filetype, 4);
    assert_eq!(stat.ino, 1000);
    assert_eq!(filestat_result(Err(ErrorCode::Access)), Err(2));
    assert_eq!(errno_of_reply(Ok(())), ERRNO_SUCCESS);
    assert_eq!(errno_of_reply(Err(ErrorCode::ReadOnly)), 69);
}
