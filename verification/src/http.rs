//! An HTTP client on top of the capability interface: what it sends for a
//! request, and how it moves the bodies.

use vstd::prelude::*;

verus! {

/// A handle to a request that is being built.
pub type OutgoingRequest = u32;

/// A handle to the stream that takes the body of a request.
pub type OutgoingStream = u32;

/// A handle to a response.
pub type IncomingResponse = u32;

/// A handle to a set of header fields.
pub type Fields = u32;

/// The time limits of a request, in milliseconds.
#[derive(Clone, Copy, PartialEq, Eq, Structural, Debug)]
pub struct RequestOptions {
    pub connect_timeout_ms: Option<u32>,
    pub first_byte_timeout_ms: Option<u32>,
    pub between_bytes_timeout_ms: Option<u32>,
}

/// An operation of the capability interface's HTTP part.
#[derive(Clone, Copy, PartialEq, Eq, Structural, Debug)]
pub enum HttpCall {
    /// Sends a request and gives the response.
    Handle { request: OutgoingRequest, options: Option<RequestOptions> },
    /// Hands back the stream of a request's body.
    DropOutputStream { stream: OutgoingStream },
    /// Hands back a request.
    DropOutgoingRequest { request: OutgoingRequest },
}

/// A client that sends every request with the same options.
pub struct DefaultClient {
    options: Option<RequestOptions>,
}

/// A request that has been built: its handle and the stream of its body.
#[derive(Clone, Copy, Debug)]
pub struct Request {
    id: OutgoingRequest,
    body: OutgoingStream,
}

impl Request {
    /// The handle of the request.
    pub closed spec fn id(&self) -> OutgoingRequest {
        self.id
    }

    /// The stream of the request's body.
    pub closed spec fn body(&self) -> OutgoingStream {
        self.body
    }

    /// The request with this handle and body stream.
    pub fn new(id: OutgoingRequest, body: OutgoingStream) -> (r: Self)
        ensures
            r.id() == id,
            r.body() == body,
    {
        Request { id, body }
    }
}

impl DefaultClient {
    /// The options of the client.
    pub closed spec fn options(&self) -> Option<RequestOptions> {
        self.options
    }

    /// A client with these options.
    pub fn new(options: Option<RequestOptions>) -> (r: Self)
        ensures
            r.options() == options,
    {
        DefaultClient { options }
    }

    /// The operations that handle a request: the request is sent with the
    /// client's options; once the response has been taken, the stream of the
    /// request's body is handed back, and then the request itself.
    pub fn handle(&self, request: &Request) -> (r: (HttpCall, HttpCall, HttpCall))
        ensures
            r.0 == (HttpCall::Handle { request: request.id(), options: self.options() }),
            r.1 == (HttpCall::DropOutputStream { stream: request.body() }),
            r.2 == (HttpCall::DropOutgoingRequest { request: request.id() }),
    {
        (
            HttpCall::Handle { request: request.id, options: self.options },
            HttpCall::DropOutputStream { stream: request.body },
            HttpCall::DropOutgoingRequest { request: request.id },
        )
    }
}

/// The methods that the client can send.
#[derive(Clone, Copy, PartialEq, Eq, Structural, Debug)]
pub enum MethodKind {
    Get,
    Post,
    Put,
    Delete,
    Patch,
    Connect,
    Trace,
    Head,
    Options,
}

/// The method of a request.
#[derive(Clone, Copy, Debug)]
pub struct Method(pub MethodKind);

/// The scheme of a request.
#[derive(Clone, Copy, PartialEq, Eq, Structural, Debug)]
pub enum Scheme {
    Http,
    Https,
}

/// A response that has arrived.
#[derive(Clone, Copy, Debug)]
pub struct Response(pub IncomingResponse);

/// The header fields of a request or a response.
#[derive(Clone, Copy, Debug)]
pub struct Headers(pub Fields);

/// The bytes of `GET`.
pub open spec fn name_get() -> Seq<u8> {
    seq![71u8, 69, 84]
}

/// The bytes of `POST`.
pub open spec fn name_post() -> Seq<u8> {
    seq![80u8, 79, 83, 84]
}

/// The bytes of `PUT`.
pub open spec fn name_put() -> Seq<u8> {
    seq![80u8, 85, 84]
}

/// The bytes of `DELETE`.
pub open spec fn name_delete() -> Seq<u8> {
    seq![68u8, 69, 76, 69, 84, 69]
}

/// The bytes of `PATCH`.
pub open spec fn name_patch() -> Seq<u8> {
    seq![80u8, 65, 84, 67, 72]
}

/// The bytes of `CONNECT`.
pub open spec fn name_connect() -> Seq<u8> {
    seq![67u8, 79, 78, 78, 69, 67, 84]
}

/// The bytes of `TRACE`.
pub open spec fn name_trace() -> Seq<u8> {
    seq![84u8, 82, 65, 67, 69]
}

/// The bytes of `HEAD`.
pub open spec fn name_head() -> Seq<u8> {
    seq![72u8, 69, 65, 68]
}

/// The bytes of `OPTIONS`.
pub open spec fn name_options() -> Seq<u8> {
    seq![79u8, 80, 84, 73, 79, 78, 83]
}

/// The method that a name stands for. Names are taken as they are written:
/// in capital letters.
pub open spec fn spec_method(name: Seq<u8>) -> Option<MethodKind> {
    if name == name_get() {
        Some(MethodKind::Get)
    } else if name == name_post() {
        Some(MethodKind::Post)
    } else if name == name_put() {
        Some(MethodKind::Put)
    } else if name == name_delete() {
        Some(MethodKind::Delete)
    } else if name == name_patch() {
        Some(MethodKind::Patch)
    } else if name == name_connect() {
        Some(MethodKind::Connect)
    } else if name == name_trace() {
        Some(MethodKind::Trace)
    } else if name == name_head() {
        Some(MethodKind::Head)
    } else if name == name_options() {
        Some(MethodKind::Options)
    } else {
        None
    }
}

/// Decides whether two byte strings are the same.
pub fn same_bytes(a: &Vec<u8>, b: &Vec<u8>) -> (r: bool)
    ensures
        r == (a@ == b@),
{
    if a.len() != b.len() {
        return false;
    }
    let mut i: usize = 0;
    while i < a.len()
        invariant
            i <= a@.len(),
            a@.len() == b@.len(),
            forall|j: int| 0 <= j < i ==> a@[j] == b@[j],
        decreases a@.len() - i,
    {
        if a[i] != b[i] {
            return false;
        }
        i = i + 1;
    }
    assert(a@ =~= b@);
    true
}

impl Method {
    /// The method that this is.
    pub open spec fn kind(&self) -> MethodKind {
        self.0
    }

    /// Translates the name of a method. A method that the client cannot send
    /// gives `None`.
    pub fn from_name(name: &Vec<u8>) -> (r: Option<Method>)
        ensures
            match r {
                Some(method) => spec_method(name@) == Some(method.kind()),
                None => spec_method(name@) is None,
            },
    {
        let get: Vec<u8> = vec![71u8, 69, 84];
        let post: Vec<u8> = vec![80u8, 79, 83, 84];
        let put: Vec<u8> = vec![80u8, 85, 84];
        let delete: Vec<u8> = vec![68u8, 69, 76, 69, 84, 69];
        let patch: Vec<u8> = vec![80u8, 65, 84, 67, 72];
        let connect: Vec<u8> = vec![67u8, 79, 78, 78, 69, 67, 84];
        let trace: Vec<u8> = vec![84u8, 82, 65, 67, 69];
        let head: Vec<u8> = vec![72u8, 69, 65, 68];
        let options: Vec<u8> = vec![79u8, 80, 84, 73, 79, 78, 83];
        assert(get@ =~= name_get());
        assert(post@ =~= name_post());
        assert(put@ =~= name_put());
        assert(delete@ =~= name_delete());
        assert(patch@ =~= name_patch());
        assert(connect@ =~= name_connect());
        assert(trace@ =~= name_trace());
        assert(head@ =~= name_head());
        assert(options@ =~= name_options());
        if same_bytes(name, &get) {
            Some(Method(MethodKind::Get))
        } else if same_bytes(name, &post) {
            Some(Method(MethodKind::Post))
        } else if same_bytes(name, &put) {
            Some(Method(MethodKind::Put))
        } else if same_bytes(name, &delete) {
            Some(Method(MethodKind::Delete))
        } else if same_bytes(name, &patch) {
            Some(Method(MethodKind::Patch))
        } else if same_bytes(name, &connect) {
            Some(Method(MethodKind::Connect))
        } else if same_bytes(name, &trace) {
            Some(Method(MethodKind::Trace))
        } else if same_bytes(name, &head) {
            Some(Method(MethodKind::Head))
        } else if same_bytes(name, &options) {
            Some(Method(MethodKind::Options))
        } else {
            None
        }
    }
}

/// The scheme that a name stands for: `http` or `https`, and none for
/// anything else.
pub open spec fn spec_scheme(name: Seq<u8>) -> Option<Scheme> {
    if name == seq![104u8, 116, 116, 112] {
        Some(Scheme::Http)
    } else if name == seq![104u8, 116, 116, 112, 115] {
        Some(Scheme::Https)
    } else {
        None
    }
}

/// Translates the scheme of a request's address.
pub fn scheme_from_name(name: &Vec<u8>) -> (r: Option<Scheme>)
    ensures
        r == spec_scheme(name@),
{
    let http: Vec<u8> = vec![104u8, 116, 116, 112];
    let https: Vec<u8> = vec![104u8, 116, 116, 112, 115];
    assert(http@ =~= seq![104u8, 116, 116, 112]);
    assert(https@ =~= seq![104u8, 116, 116, 112, 115]);
    if same_bytes(name, &http) {
        Some(Scheme::Http)
    } else if same_bytes(name, &https) {
        Some(Scheme::Https)
    } else {
        None
    }
}

/// How many bytes of a body go out next: what is left of the body, but no
/// more than the stream permits.
pub fn chunk_len(remaining: usize, permit: u64) -> (r: usize)
    ensures
        r <= remaining,
        r <= permit,
        r == remaining || r == permit,
{
    if permit < remaining as u64 {
        permit as usize
    } else {
        remaining
    }
}

/// Whether a stream goes on.
#[derive(Clone, Copy, PartialEq, Eq, Structural, Debug)]
pub enum StreamStatus {
    Open,
    Ended,
}

/// Whether the body of a response goes on after a read: an empty read ends
/// it, and otherwise the stream says.
pub fn body_status(read: usize, status: StreamStatus) -> (r: StreamStatus)
    ensures
        r == (if read == 0 {
            StreamStatus::Ended
        } else {
            status
        }),
{
    if read == 0 {
        StreamStatus::Ended
    } else {
        status
    }
}

} // verus!
