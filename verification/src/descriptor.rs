//! What a slot of the descriptor table holds.

use vstd::prelude::*;
use crate::capability::{
    DescriptorHandle, DirectoryEntryStream, HostCall, InputStream, OutputStream, Source,
    TcpSocket,
};
use crate::flat::{
    ERRNO_BADF, Errno, Fd, Filesize,
};

verus! {

/// An open file or directory.
#[derive(Clone, Copy, PartialEq, Eq, Structural, Debug)]
pub struct File {
    /// The handle of the file.
    pub fd: DescriptorHandle,
    /// The current position: where the next read or non-append write starts.
    pub position: Filesize,
    /// In append mode every write lands at the end of the file.
    pub append: bool,
}

/// Where the data of a stream comes from.
#[derive(Clone, Copy, PartialEq, Eq, Structural, Debug)]
pub enum StreamType {
    /// A stream of unknown origin.
    Unknown,
    /// An input that holds no bytes.
    EmptyStdin,
    /// A file.
    File(File),
    /// A socket connection.
    Socket(TcpSocket),
}

/// Input and output streams of one descriptor, each created when first
/// needed, and what they belong to.
#[derive(Clone, Copy, PartialEq, Eq, Structural, Debug)]
pub struct Streams {
    /// The input stream, once there is one.
    pub input: Option<InputStream>,
    /// The output stream, once there is one.
    pub output: Option<OutputStream>,
    /// What the streams belong to.
    pub type_: StreamType,
}

/// One slot of the descriptor table.
#[derive(Clone, Copy, PartialEq, Eq, Structural, Debug)]
pub enum Descriptor {
    /// A free slot, with the next free slot behind it.
    Closed(Option<Fd>),
    /// Streams.
    Streams(Streams),
    /// A sink for error output: always writable, never readable.
    Stderr,
}

/// The handles that a descriptor gives up when it is destroyed. Each of them
/// is to be handed back to the capability interface.
#[derive(Clone, Copy, PartialEq, Eq, Structural, Debug)]
pub struct Released {
    pub input: Option<InputStream>,
    pub output: Option<OutputStream>,
    pub descriptor: Option<DescriptorHandle>,
    pub socket: Option<TcpSocket>,
    pub directory_stream: Option<DirectoryEntryStream>,
}

/// No handle at all.
pub open spec fn spec_nothing_released() -> Released {
    Released { input: None, output: None, descriptor: None, socket: None, directory_stream: None }
}

/// No handle at all.
pub fn nothing_released() -> (r: Released)
    ensures
        r == spec_nothing_released(),
{
    Released { input: None, output: None, descriptor: None, socket: None, directory_stream: None }
}

impl Streams {
    /// Streams of a file at position zero, with no stream created yet.
    pub open spec fn spec_of_file(fd: DescriptorHandle, append: bool) -> Streams {
        Streams {
            input: None,
            output: None,
            type_: StreamType::File(File { fd, position: 0, append }),
        }
    }

    /// Streams of a file at position zero, with no stream created yet.
    pub fn of_file(fd: DescriptorHandle, append: bool) -> (r: Streams)
        ensures
            r == Self::spec_of_file(fd, append),
    {
        Streams {
            input: None,
            output: None,
            type_: StreamType::File(File { fd, position: 0, append }),
        }
    }

    /// How to come by the input stream: the recorded one where there is one;
    /// for a file, a new stream that reads from the current position; nothing
    /// else can be read.
    pub open spec fn spec_read_stream(&self) -> Result<Source, Errno> {
        match self.input {
            Some(stream) => Ok(Source::Ready(stream)),
            None => match self.type_ {
                StreamType::File(file) => Ok(
                    Source::Create(
                        HostCall::ReadViaStream { fd: file.fd, offset: file.position },
                    ),
                ),
                _ => Err(ERRNO_BADF),
            },
        }
    }

    /// How to come by the output stream: the recorded one where there is one;
    /// for a file, a new stream that appends in append mode and otherwise
    /// writes from the current position; nothing else can be written.
    pub open spec fn spec_write_stream(&self) -> Result<Source, Errno> {
        match self.output {
            Some(stream) => Ok(Source::Ready(stream)),
            None => match self.type_ {
                StreamType::File(file) => Ok(
                    Source::Create(
                        if file.append {
                            HostCall::AppendViaStream { fd: file.fd }
                        } else {
                            HostCall::WriteViaStream { fd: file.fd, offset: file.position }
                        },
                    ),
                ),
                _ => Err(ERRNO_BADF),
            },
        }
    }

    /// Says how to come by the input stream.
    pub fn get_read_stream(&self) -> (r: Result<Source, Errno>)
        ensures
            r == self.spec_read_stream(),
    {
        match self.input {
            Some(stream) => Ok(Source::Ready(stream)),
            None => match self.type_ {
                StreamType::File(file) => Ok(
                    Source::Create(
                        HostCall::ReadViaStream { fd: file.fd, offset: file.position },
                    ),
                ),
                _ => Err(ERRNO_BADF),
            },
        }
    }

    /// Says how to come by the output stream.
    pub fn get_write_stream(&self) -> (r: Result<Source, Errno>)
        ensures
            r == self.spec_write_stream(),
    {
        match self.output {
            Some(stream) => Ok(Source::Ready(stream)),
            None => match self.type_ {
                StreamType::File(file) => {
                    if file.append {
                        Ok(Source::Create(HostCall::AppendViaStream { fd: file.fd }))
                    } else {
                        Ok(
                            Source::Create(
                                HostCall::WriteViaStream { fd: file.fd, offset: file.position },
                            ),
                        )
                    }
                },
                _ => Err(ERRNO_BADF),
            },
        }
    }

    /// The handles that these streams hold: the two streams where they exist,
    /// and the file or socket they belong to.
    pub open spec fn spec_release(&self) -> Released {
        Released {
            input: self.input,
            output: self.output,
            descriptor: match self.type_ {
                StreamType::File(file) => Some(file.fd),
                _ => None,
            },
            socket: match self.type_ {
                StreamType::Socket(socket) => Some(socket),
                _ => None,
            },
            directory_stream: None,
        }
    }

    /// Lists the handles that these streams hold.
    pub fn release(&self) -> (r: Released)
        ensures
            r == self.spec_release(),
    {
        Released {
            input: self.input,
            output: self.output,
            descriptor: match self.type_ {
                StreamType::File(file) => Some(file.fd),
                _ => None,
            },
            socket: match self.type_ {
                StreamType::Socket(socket) => Some(socket),
                _ => None,
            },
            directory_stream: None,
        }
    }
}

impl Descriptor {
    /// Whether the slot is in use.
    pub open spec fn is_open(&self) -> bool {
        !(self is Closed)
    }

    /// The handles that the descriptor holds.
    pub open spec fn spec_release(&self) -> Released {
        match self {
            Descriptor::Streams(streams) => streams.spec_release(),
            _ => spec_nothing_released(),
        }
    }

    /// Lists the handles that the descriptor holds: what has to be handed back
    /// when the descriptor is destroyed.
    pub fn release(&self) -> (r: Released)
        ensures
            r == self.spec_release(),
    {
        match self {
            Descriptor::Streams(streams) => streams.release(),
            _ => nothing_released(),
        }
    }
}

} // verus!
