//! Waiting for events. A call of `poll_oneoff` turns each subscription into
//! something that the capability interface can wait on, waits for all of them
//! at once, and reports an event for each subscription that became ready. A
//! [`Poll`] is one such call.

use vstd::prelude::*;
use crate::capability::{
    Datetime, DescriptorStat, ErrorCode, HostCall, MonotonicClock, Pollable, ResultBuffer,
    Source, WallClock,
};
use crate::descriptor::{
    Descriptor, StreamType,
};
use crate::flat::{
    CLOCKID_MONOTONIC, CLOCKID_REALTIME, ERRNO_BADF, ERRNO_INVAL, ERRNO_NOTSUP, ERRNO_OVERFLOW,
    ERRNO_SUCCESS, EVENTRWFLAGS_FD_READWRITE_HANGUP, EVENTTYPE_CLOCK, EVENTTYPE_FD_READ,
    EVENTTYPE_FD_WRITE, Errno, Eventrwflags, Eventtype, Fd, Filesize, NANOS_PER_SECOND,
    SUBCLOCKFLAGS_SUBSCRIPTION_CLOCK_ABSTIME, Timestamp,
};
use crate::records::{
    EVENT_SIZE, Event, EventFdReadwrite, Subscription,
};
use crate::state::State;
use crate::table::DescriptorTable;
use crate::translate::{
    errno_from_error_code, has16, spec_errno,
};

verus! {

/// `a - b`, with 2^64 added where that is negative.
pub open spec fn wrapping_sub64(a: u64, b: u64) -> u64 {
    if a - b < 0 {
        (a - b + 0x1_0000_0000_0000_0000) as u64
    } else {
        (a - b) as u64
    }
}

/// `a - b`, with 2^32 added where that is negative.
pub open spec fn wrapping_sub32(a: u32, b: u32) -> u32 {
    if a - b < 0 {
        (a - b + 0x1_0000_0000) as u32
    } else {
        (a - b) as u32
    }
}

/// The nanoseconds from `now` to the deadline `timeout` of the wall clock.
/// The deadline is split into seconds and nanoseconds, `now` is taken from it
/// part by part with a borrow from the seconds, and the parts are put
/// together again; each subtraction wraps, so that a deadline that has passed
/// comes out as an overflow.
pub open spec fn spec_realtime_timeout(
    timeout: Timestamp,
    now: Datetime,
) -> Result<Timestamp, Errno> {
    let seconds = wrapping_sub64(timeout / NANOS_PER_SECOND, now.seconds);
    let nanoseconds = (timeout % NANOS_PER_SECOND) as u32;
    let borrow = nanoseconds < now.nanoseconds;
    let seconds = if borrow {
        wrapping_sub64(seconds, 1)
    } else {
        seconds
    };
    let nanoseconds = if borrow {
        (nanoseconds + NANOS_PER_SECOND) as u32
    } else {
        nanoseconds
    };
    let nanoseconds = wrapping_sub32(nanoseconds, now.nanoseconds);
    let total = seconds as int * NANOS_PER_SECOND as int + nanoseconds as int;
    if total <= u64::MAX as int {
        Ok(total as u64)
    } else {
        Err(ERRNO_OVERFLOW)
    }
}

/// Computes the time that is left until an absolute deadline of the wall
/// clock.
pub fn realtime_timeout(timeout: Timestamp, now: Datetime) -> (r: Result<Timestamp, Errno>)
    ensures
        r == spec_realtime_timeout(timeout, now),
{
    let mut seconds: u64 = (timeout / NANOS_PER_SECOND).wrapping_sub(now.seconds);
    let mut nanoseconds: u32 = (timeout % NANOS_PER_SECOND) as u32;
    if nanoseconds < now.nanoseconds {
        seconds = seconds.wrapping_sub(1);
        nanoseconds = nanoseconds + 1_000_000_000u32;
    }
    nanoseconds = nanoseconds.wrapping_sub(now.nanoseconds);
    match seconds.checked_mul(NANOS_PER_SECOND) {
        None => Err(ERRNO_OVERFLOW),
        Some(nanos) => match nanos.checked_add(nanoseconds as u64) {
            None => Err(ERRNO_OVERFLOW),
            Some(nanos) => Ok(nanos),
        },
    }
}

/// For a deadline that has not passed, the time left is the deadline minus
/// the current time.
pub proof fn lemma_realtime_timeout_ahead(timeout: Timestamp, now: Datetime)
    requires
        now.nanoseconds < NANOS_PER_SECOND,
        now.seconds as int * NANOS_PER_SECOND as int + now.nanoseconds as int <= timeout as int,
    ensures
        spec_realtime_timeout(timeout, now) == Ok::<Timestamp, Errno>(
            (timeout as int - (now.seconds as int * NANOS_PER_SECOND as int
                + now.nanoseconds as int)) as u64,
        ),
{
    let s = timeout / NANOS_PER_SECOND;
    let n = timeout % NANOS_PER_SECOND;
    vstd::arithmetic::div_mod::lemma_fundamental_div_mod(timeout as int, NANOS_PER_SECOND as int);
    assert(timeout as int == 1_000_000_000 * (s as int) + n as int);
    assert(now.seconds <= s) by (nonlinear_arith)
        requires
            now.seconds as int * 1_000_000_000 + now.nanoseconds as int <= 1_000_000_000 * (
            s as int) + n as int,
            0 <= n < 1_000_000_000,
            0 <= now.nanoseconds,
    ;
    if n < now.nanoseconds {
        assert(now.seconds < s) by (nonlinear_arith)
            requires
                now.seconds as int * 1_000_000_000 + now.nanoseconds as int <= 1_000_000_000
                    * (s as int) + n as int,
                n < now.nanoseconds,
                now.seconds <= s,
        ;
    }
    let d: int = if n < now.nanoseconds {
        s - now.seconds - 1
    } else {
        s - now.seconds
    };
    assert(d * 1_000_000_000 == if n < now.nanoseconds {
        s * 1_000_000_000 - now.seconds * 1_000_000_000 - 1_000_000_000
    } else {
        s * 1_000_000_000 - now.seconds * 1_000_000_000
    }) by (nonlinear_arith)
        requires
            d == if n < now.nanoseconds {
                s - now.seconds - 1
            } else {
                s - now.seconds
            },
    ;
}

/// For a deadline that has passed, the time left does not fit a timestamp:
/// the subscription is refused with an overflow.
pub proof fn lemma_realtime_timeout_passed(timeout: Timestamp, now: Datetime)
    requires
        now.nanoseconds < NANOS_PER_SECOND,
        now.seconds as int * NANOS_PER_SECOND as int + now.nanoseconds as int <= u64::MAX as int,
        (timeout as int) < now.seconds as int * NANOS_PER_SECOND as int + now.nanoseconds as int,
    ensures
        spec_realtime_timeout(timeout, now) == Err::<Timestamp, Errno>(ERRNO_OVERFLOW),
{
    let s = timeout / NANOS_PER_SECOND;
    let n = timeout % NANOS_PER_SECOND;
    vstd::arithmetic::div_mod::lemma_fundamental_div_mod(timeout as int, NANOS_PER_SECOND as int);
    assert(timeout as int == 1_000_000_000 * (s as int) + n as int);
    assert(now.seconds as int <= 18_446_744_073) by (nonlinear_arith)
        requires
            now.seconds as int * 1_000_000_000 + now.nanoseconds as int <= 0xffff_ffff_ffff_ffff,
            0 <= now.nanoseconds,
    ;
    assert(s <= now.seconds) by (nonlinear_arith)
        requires
            1_000_000_000 * (s as int) + (n as int) < now.seconds as int * 1_000_000_000
                + now.nanoseconds as int,
            0 <= n,
            now.nanoseconds < 1_000_000_000,
    ;
    if s == now.seconds {
        assert(n < now.nanoseconds);
    }
    let borrow = (n as u32) < now.nanoseconds;
    let seconds = wrapping_sub64(s, now.seconds);
    let left = if borrow {
        wrapping_sub64(seconds, 1)
    } else {
        seconds
    };
    assert(left as int >= 0x1_0000_0000_0000_0000 - 18_446_744_074);
    assert(left as int * 1_000_000_000 > 0xffff_ffff_ffff_ffff) by (nonlinear_arith)
        requires
            left as int >= 0x1_0000_0000_0000_0000 - 18_446_744_074,
    ;
}

/// What a subscription needs next on its way to something that can be waited
/// on.
#[derive(Clone, Copy, PartialEq, Eq, Structural, Debug)]
pub enum Subscribing {
    /// A handle that the state keeps: the outcome of this operation is to be
    /// recorded in the state.
    Fetch(HostCall),
    /// The current time of the wall clock.
    Now(HostCall),
    /// This operation: its outcome is what can be waited on.
    Subscribe(HostCall),
    /// Nothing: the subscription is refused with this error.
    Fail(Errno),
}

/// The subscription to the monotonic clock, once its handle is known.
pub open spec fn spec_timer(
    clock: Option<MonotonicClock>,
    when: Timestamp,
    absolute: bool,
) -> Subscribing {
    match clock {
        Some(clock) => Subscribing::Subscribe(
            HostCall::MonotonicSubscribe { clock, when, absolute },
        ),
        None => Subscribing::Fetch(HostCall::InstanceMonotonicClock),
    }
}

/// What a subscription is turned into.
///
/// A clock subscription becomes a timer of the monotonic clock: with its own
/// timeout for the monotonic clock; for the wall clock with a relative
/// timeout, which for an absolute deadline is the time left from now. Any
/// other clock is an invalid argument. A read or write subscription waits for
/// the stream of its descriptor; a descriptor without such a stream gets a
/// timer that fires at once, so that an event reports the error. Any other
/// type of subscription is an invalid argument.
pub open spec fn spec_subscribe(
    sub: Subscription,
    table: DescriptorTable,
    monotonic: Option<MonotonicClock>,
    wall: Option<WallClock>,
    now: Option<Datetime>,
) -> Subscribing {
    if sub.tag == EVENTTYPE_CLOCK {
        let absolute = has16(sub.flags, SUBCLOCKFLAGS_SUBSCRIPTION_CLOCK_ABSTIME);
        if sub.id == CLOCKID_REALTIME {
            if absolute {
                match now {
                    None => match wall {
                        None => Subscribing::Fetch(HostCall::InstanceWallClock),
                        Some(clock) => Subscribing::Now(HostCall::WallNow { clock }),
                    },
                    Some(now) => match spec_realtime_timeout(sub.timeout, now) {
                        Err(errno) => Subscribing::Fail(errno),
                        Ok(timeout) => spec_timer(monotonic, timeout, false),
                    },
                }
            } else {
                spec_timer(monotonic, sub.timeout, false)
            }
        } else if sub.id == CLOCKID_MONOTONIC {
            spec_timer(monotonic, sub.timeout, absolute)
        } else {
            Subscribing::Fail(ERRNO_INVAL)
        }
    } else if sub.tag == EVENTTYPE_FD_READ {
        match table.spec_read_stream(sub.id) {
            Ok(Source::Ready(stream)) => Subscribing::Subscribe(
                HostCall::SubscribeToInputStream { stream },
            ),
            Ok(Source::Create(call)) => Subscribing::Fetch(call),
            Err(errno) => if errno == ERRNO_BADF {
                spec_timer(monotonic, 0, false)
            } else {
                Subscribing::Fail(errno)
            },
        }
    } else if sub.tag == EVENTTYPE_FD_WRITE {
        match table.spec_write_stream(sub.id) {
            Ok(Source::Ready(stream)) => Subscribing::Subscribe(
                HostCall::SubscribeToOutputStream { stream },
            ),
            Ok(Source::Create(call)) => Subscribing::Fetch(call),
            Err(errno) => if errno == ERRNO_BADF {
                spec_timer(monotonic, 0, false)
            } else {
                Subscribing::Fail(errno)
            },
        }
    } else {
        Subscribing::Fail(ERRNO_INVAL)
    }
}

fn timer(state: &State, when: Timestamp, absolute: bool) -> (r: Subscribing)
    ensures
        r == spec_timer(state.monotonic_clock(), when, absolute),
{
    match state.instance_monotonic_clock() {
        Source::Ready(clock) => Subscribing::Subscribe(
            HostCall::MonotonicSubscribe { clock, when, absolute },
        ),
        Source::Create(call) => Subscribing::Fetch(call),
    }
}

/// Says what a subscription needs next. `now` is the current time of the wall
/// clock where it has been asked for.
pub fn subscribe(state: &State, sub: &Subscription, now: Option<Datetime>) -> (r: Subscribing)
    ensures
        r == spec_subscribe(*sub, state.table(), state.monotonic_clock(), state.wall_clock(), now),
{
    if sub.tag == EVENTTYPE_CLOCK {
        let absolute: bool = sub.flags & SUBCLOCKFLAGS_SUBSCRIPTION_CLOCK_ABSTIME
            == SUBCLOCKFLAGS_SUBSCRIPTION_CLOCK_ABSTIME;
        if sub.id == CLOCKID_REALTIME {
            if absolute {
                match now {
                    None => match state.instance_wall_clock() {
                        Source::Create(call) => Subscribing::Fetch(call),
                        Source::Ready(clock) => Subscribing::Now(HostCall::WallNow { clock }),
                    },
                    Some(now) => match realtime_timeout(sub.timeout, now) {
                        Err(errno) => Subscribing::Fail(errno),
                        Ok(timeout) => timer(state, timeout, false),
                    },
                }
            } else {
                timer(state, sub.timeout, false)
            }
        } else if sub.id == CLOCKID_MONOTONIC {
            timer(state, sub.timeout, absolute)
        } else {
            Subscribing::Fail(ERRNO_INVAL)
        }
    } else if sub.tag == EVENTTYPE_FD_READ {
        match state.get_read_stream(sub.id) {
            Ok(Source::Ready(stream)) => Subscribing::Subscribe(
                HostCall::SubscribeToInputStream { stream },
            ),
            Ok(Source::Create(call)) => Subscribing::Fetch(call),
            Err(errno) => {
                if errno == ERRNO_BADF {
                    timer(state, 0, false)
                } else {
                    Subscribing::Fail(errno)
                }
            },
        }
    } else if sub.tag == EVENTTYPE_FD_WRITE {
        match state.get_write_stream(sub.id) {
            Ok(Source::Ready(stream)) => Subscribing::Subscribe(
                HostCall::SubscribeToOutputStream { stream },
            ),
            Ok(Source::Create(call)) => Subscribing::Fetch(call),
            Err(errno) => {
                if errno == ERRNO_BADF {
                    timer(state, 0, false)
                } else {
                    Subscribing::Fail(errno)
                }
            },
        }
    } else {
        Subscribing::Fail(ERRNO_INVAL)
    }
}

/// What the report of a ready subscription needs.
#[derive(Clone, Copy, PartialEq, Eq, Structural, Debug)]
pub enum Reporting {
    /// Nothing: this is the event.
    Event(Event),
    /// The attributes of the file, from this operation.
    Stat(HostCall),
}

/// An event for a subscription.
pub open spec fn spec_event(
    sub: Subscription,
    error: Errno,
    type_: Eventtype,
    nbytes: Filesize,
    flags: Eventrwflags,
) -> Event {
    Event { userdata: sub.userdata, error, type_, fd_readwrite: EventFdReadwrite { nbytes, flags } }
}

/// What is reported for a subscription that became ready.
///
/// A clock reports success. A read reports, for a file, what is left of the
/// file behind the position, which needs the attributes of the file; for an
/// empty input, no bytes and a hang-up; for a stream of unknown origin, one
/// byte. A write reports one byte for a file and for a stream of unknown
/// origin, and a bad descriptor for an empty input. A socket is not supported,
/// and a descriptor without streams is a bad descriptor.
pub open spec fn spec_report(sub: Subscription, table: DescriptorTable) -> Reporting {
    if sub.tag == EVENTTYPE_CLOCK {
        Reporting::Event(spec_event(sub, ERRNO_SUCCESS, EVENTTYPE_CLOCK, 0, 0))
    } else if sub.tag == EVENTTYPE_FD_READ {
        match table.spec_get(sub.id) {
            Ok(Descriptor::Streams(streams)) => match streams.type_ {
                StreamType::File(file) => Reporting::Stat(HostCall::Stat { fd: file.fd }),
                StreamType::Socket(_) => Reporting::Event(
                    spec_event(sub, ERRNO_NOTSUP, EVENTTYPE_FD_READ, 0, 0),
                ),
                StreamType::EmptyStdin => Reporting::Event(
                    spec_event(
                        sub,
                        ERRNO_SUCCESS,
                        EVENTTYPE_FD_READ,
                        0,
                        EVENTRWFLAGS_FD_READWRITE_HANGUP,
                    ),
                ),
                StreamType::Unknown => Reporting::Event(
                    spec_event(sub, ERRNO_SUCCESS, EVENTTYPE_FD_READ, 1, 0),
                ),
            },
            _ => Reporting::Event(spec_event(sub, ERRNO_BADF, EVENTTYPE_FD_READ, 0, 0)),
        }
    } else if sub.tag == EVENTTYPE_FD_WRITE {
        match table.spec_get(sub.id) {
            Ok(Descriptor::Streams(streams)) => match streams.type_ {
                StreamType::File(_) => Reporting::Event(
                    spec_event(sub, ERRNO_SUCCESS, EVENTTYPE_FD_WRITE, 1, 0),
                ),
                StreamType::Unknown => Reporting::Event(
                    spec_event(sub, ERRNO_SUCCESS, EVENTTYPE_FD_WRITE, 1, 0),
                ),
                StreamType::Socket(_) => Reporting::Event(
                    spec_event(sub, ERRNO_NOTSUP, EVENTTYPE_FD_WRITE, 0, 0),
                ),
                StreamType::EmptyStdin => Reporting::Event(
                    spec_event(sub, ERRNO_BADF, EVENTTYPE_FD_WRITE, 0, 0),
                ),
            },
            _ => Reporting::Event(spec_event(sub, ERRNO_BADF, EVENTTYPE_FD_WRITE, 0, 0)),
        }
    } else {
        Reporting::Event(spec_event(sub, ERRNO_INVAL, sub.tag, 0, 0))
    }
}

/// The event of a read subscription on a file once the attributes of the
/// file have arrived: the bytes between the position and the end of the file,
/// with a hang-up where there are none; or the error, with one byte.
pub open spec fn spec_read_event(
    sub: Subscription,
    position: Filesize,
    reply: Result<DescriptorStat, ErrorCode>,
) -> Event {
    match reply {
        Ok(stat) => {
            let nbytes: u64 = if stat.size >= position {
                (stat.size - position) as u64
            } else {
                0
            };
            spec_event(
                sub,
                ERRNO_SUCCESS,
                EVENTTYPE_FD_READ,
                nbytes,
                if nbytes == 0 {
                    EVENTRWFLAGS_FD_READWRITE_HANGUP
                } else {
                    0
                },
            )
        },
        Err(err) => spec_event(sub, spec_errno(err), EVENTTYPE_FD_READ, 1, 0),
    }
}

fn event(
    sub: &Subscription,
    error: Errno,
    type_: Eventtype,
    nbytes: Filesize,
    flags: Eventrwflags,
) -> (r: Event)
    ensures
        r == spec_event(*sub, error, type_, nbytes, flags),
{
    Event { userdata: sub.userdata, error, type_, fd_readwrite: EventFdReadwrite { nbytes, flags } }
}

/// Says what is reported for a subscription that became ready.
pub fn report(state: &State, sub: &Subscription) -> (r: Reporting)
    ensures
        r == spec_report(*sub, state.table()),
{
    if sub.tag == EVENTTYPE_CLOCK {
        Reporting::Event(event(sub, ERRNO_SUCCESS, EVENTTYPE_CLOCK, 0, 0))
    } else if sub.tag == EVENTTYPE_FD_READ {
        match state.get(sub.id) {
            Ok(Descriptor::Streams(streams)) => match streams.type_ {
                StreamType::File(file) => Reporting::Stat(HostCall::Stat { fd: file.fd }),
                StreamType::Socket(_) => Reporting::Event(
                    event(sub, ERRNO_NOTSUP, EVENTTYPE_FD_READ, 0, 0),
                ),
                StreamType::EmptyStdin => Reporting::Event(
                    event(
                        sub,
                        ERRNO_SUCCESS,
                        EVENTTYPE_FD_READ,
                        0,
                        EVENTRWFLAGS_FD_READWRITE_HANGUP,
                    ),
                ),
                StreamType::Unknown => Reporting::Event(
                    event(sub, ERRNO_SUCCESS, EVENTTYPE_FD_READ, 1, 0),
                ),
            },
            _ => Reporting::Event(event(sub, ERRNO_BADF, EVENTTYPE_FD_READ, 0, 0)),
        }
    } else if sub.tag == EVENTTYPE_FD_WRITE {
        match state.get(sub.id) {
            Ok(Descriptor::Streams(streams)) => match streams.type_ {
                StreamType::File(_) => Reporting::Event(
                    event(sub, ERRNO_SUCCESS, EVENTTYPE_FD_WRITE, 1, 0),
                ),
                StreamType::Unknown => Reporting::Event(
                    event(sub, ERRNO_SUCCESS, EVENTTYPE_FD_WRITE, 1, 0),
                ),
                StreamType::Socket(_) => Reporting::Event(
                    event(sub, ERRNO_NOTSUP, EVENTTYPE_FD_WRITE, 0, 0),
                ),
                StreamType::EmptyStdin => Reporting::Event(
                    event(sub, ERRNO_BADF, EVENTTYPE_FD_WRITE, 0, 0),
                ),
            },
            _ => Reporting::Event(event(sub, ERRNO_BADF, EVENTTYPE_FD_WRITE, 0, 0)),
        }
    } else {
        Reporting::Event(event(sub, ERRNO_INVAL, sub.tag, 0, 0))
    }
}

/// Computes the event of a read subscription on a file from the attributes
/// that the host reported.
pub fn read_event(
    sub: &Subscription,
    position: Filesize,
    reply: Result<DescriptorStat, ErrorCode>,
) -> (r: Event)
    ensures
        r == spec_read_event(*sub, position, reply),
{
    match reply {
        Ok(stat) => {
            let nbytes: u64 = stat.size.saturating_sub(position);
            let flags: Eventrwflags = if nbytes == 0 {
                EVENTRWFLAGS_FD_READWRITE_HANGUP
            } else {
                0
            };
            event(sub, ERRNO_SUCCESS, EVENTTYPE_FD_READ, nbytes, flags)
        },
        Err(err) => event(sub, errno_from_error_code(err), EVENTTYPE_FD_READ, 1, 0),
    }
}

/// How far a call of `poll_oneoff` has come.
#[derive(Clone, Copy, PartialEq, Eq, Structural, Debug)]
pub enum PollPhase {
    /// The subscriptions are turned, one after the other, into something that
    /// can be waited on.
    Subscribing,
    /// Everything is ready for the wait.
    Waiting,
    /// The wait is over; the ready subscriptions are reported, one after the
    /// other.
    Reporting,
    /// The call has its result.
    Finished,
}

/// What a call of `poll_oneoff` needs next.
#[derive(Clone, Copy, PartialEq, Eq, Structural, Debug)]
pub enum PollRequest {
    /// A handle that the state keeps: the outcome of this operation is to be
    /// recorded in the state, and the call is to be asked again.
    Fetch(HostCall),
    /// The current time of the wall clock, for `on_now`.
    Now(HostCall),
    /// Something to wait on, for `on_pollable`.
    Subscribe(HostCall),
    /// The wait for everything that was subscribed, for `on_ready`.
    Wait(HostCall),
    /// The attributes of a file, for `on_stat`.
    Stat(HostCall),
    /// Nothing: the call has its result.
    Finished,
}

/// The state of one call of `poll_oneoff`.
pub ghost struct PollView {
    /// The subscriptions.
    pub subs: Seq<Subscription>,
    /// The address at which the wait writes one byte per subscription.
    pub results: usize,
    /// How far the call has come.
    pub phase: PollPhase,
    /// The subscription that is worked on.
    pub index: int,
    /// What the subscriptions before `index` were turned into.
    pub pollables: Seq<Pollable>,
    /// The current time of the wall clock, where the subscription that is
    /// worked on has asked for it.
    pub now: Option<Datetime>,
    /// What the wait wrote: for each subscription whether it is ready.
    pub ready: Seq<u8>,
    /// The events so far.
    pub events: Seq<Event>,
    /// The result of the call.
    pub errno: Errno,
}

/// The wait for everything that was subscribed. Its result, one byte for each
/// subscription, goes to the end of the guest's event buffer, where the events
/// that are written later do not reach it before it is read.
pub open spec fn spec_wait(v: PollView) -> HostCall {
    HostCall::PollOneoff {
        into: ResultBuffer::Caller { ptr: v.results, len: v.subs.len() as usize },
    }
}

/// The reports from subscription `index` on: a subscription that is not ready
/// is passed over; one that is ready gets its event, for which a read from a
/// file first asks for the attributes of the file. After the last
/// subscription the call has finished.
#[verifier::opaque]
pub open spec fn spec_report_from(v: PollView, table: DescriptorTable) -> (PollView, PollRequest)
    decreases v.subs.len() - v.index,
{
    if v.index < 0 || v.index >= v.subs.len() || v.index >= v.ready.len() {
        (PollView { phase: PollPhase::Finished, ..v }, PollRequest::Finished)
    } else if v.ready[v.index] == 0 {
        spec_report_from(PollView { index: v.index + 1, ..v }, table)
    } else {
        match spec_report(v.subs[v.index], table) {
            Reporting::Event(event) => spec_report_from(
                PollView { index: v.index + 1, events: v.events.push(event), ..v },
                table,
            ),
            Reporting::Stat(call) => (v, PollRequest::Stat(call)),
        }
    }
}

/// One step of the reports.
pub proof fn lemma_report_unfold(v: PollView, table: DescriptorTable)
    ensures
        spec_report_from(v, table) == (if v.index < 0 || v.index >= v.subs.len() || v.index
            >= v.ready.len() {
            (PollView { phase: PollPhase::Finished, ..v }, PollRequest::Finished)
        } else if v.ready[v.index] == 0 {
            spec_report_from(PollView { index: v.index + 1, ..v }, table)
        } else {
            match spec_report(v.subs[v.index], table) {
                Reporting::Event(event) => spec_report_from(
                    PollView { index: v.index + 1, events: v.events.push(event), ..v },
                    table,
                ),
                Reporting::Stat(call) => (v, PollRequest::Stat(call)),
            }
        }),
{
    reveal(spec_report_from);
}

/// What the call does next, and what it then needs. A subscription that is
/// refused ends the call with its error, and nothing is reported.
pub open spec fn spec_step(
    v: PollView,
    table: DescriptorTable,
    monotonic: Option<MonotonicClock>,
    wall: Option<WallClock>,
) -> (PollView, PollRequest) {
    match v.phase {
        PollPhase::Subscribing => match spec_subscribe(
            v.subs[v.index],
            table,
            monotonic,
            wall,
            v.now,
        ) {
            Subscribing::Fetch(call) => (v, PollRequest::Fetch(call)),
            Subscribing::Now(call) => (v, PollRequest::Now(call)),
            Subscribing::Subscribe(call) => (v, PollRequest::Subscribe(call)),
            Subscribing::Fail(errno) => (
                PollView { phase: PollPhase::Finished, errno, ..v },
                PollRequest::Finished,
            ),
        },
        PollPhase::Waiting => (v, PollRequest::Wait(spec_wait(v))),
        PollPhase::Reporting => spec_report_from(v, table),
        PollPhase::Finished => (v, PollRequest::Finished),
    }
}

/// The start of a call. Without a subscription the call is an invalid
/// argument: there is nothing to wait for.
pub open spec fn spec_poll_begin(subs: Seq<Subscription>, out: usize) -> PollView {
    PollView {
        subs,
        results: (out + subs.len() * EVENT_SIZE - subs.len()) as usize,
        phase: if subs.len() == 0 {
            PollPhase::Finished
        } else {
            PollPhase::Subscribing
        },
        index: 0,
        pollables: Seq::empty(),
        now: None,
        ready: Seq::empty(),
        events: Seq::empty(),
        errno: if subs.len() == 0 {
            ERRNO_INVAL
        } else {
            ERRNO_SUCCESS
        },
    }
}

/// The subscription that is worked on has been turned into `pollable`; the
/// next one is worked on, and after the last one the wait.
pub open spec fn spec_on_pollable(v: PollView, pollable: Pollable) -> PollView {
    PollView {
        pollables: v.pollables.push(pollable),
        now: None,
        index: v.index + 1,
        phase: if v.index + 1 >= v.subs.len() {
            PollPhase::Waiting
        } else {
            PollPhase::Subscribing
        },
        ..v
    }
}

/// The wait is over.
pub open spec fn spec_on_ready(v: PollView, ready: Seq<u8>) -> PollView {
    PollView { ready, index: 0, phase: PollPhase::Reporting, ..v }
}

/// The position of the file in slot `fd`, or zero where there is none.
pub open spec fn spec_position(table: DescriptorTable, fd: Fd) -> Filesize {
    match table.spec_file_with_error(fd, ERRNO_BADF) {
        Ok(file) => file.position,
        Err(_) => 0,
    }
}

/// The attributes of the file of the subscription that is reported have
/// arrived.
pub open spec fn spec_poll_on_stat(
    v: PollView,
    table: DescriptorTable,
    reply: Result<DescriptorStat, ErrorCode>,
) -> PollView {
    PollView {
        index: v.index + 1,
        events: v.events.push(
            spec_read_event(v.subs[v.index], spec_position(table, v.subs[v.index].id), reply),
        ),
        ..v
    }
}

/// The call is well formed: it works on a subscription that exists, what it
/// has subscribed and reported matches how far it has come, and no more events
/// are reported than there are subscriptions.
pub open spec fn poll_wf(v: PollView) -> bool {
    &&& v.results + v.subs.len() <= usize::MAX
    &&& v.events.len() <= v.subs.len()
    &&& match v.phase {
        PollPhase::Subscribing => 0 <= v.index < v.subs.len() && v.pollables.len() == v.index
            && v.events.len() == 0,
        PollPhase::Waiting => v.pollables.len() == v.subs.len() && v.events.len() == 0,
        PollPhase::Reporting => 0 <= v.index <= v.subs.len() && v.ready.len() == v.subs.len()
            && v.events.len() <= v.index,
        PollPhase::Finished => true,
    }
}

/// The reports keep the call well formed, end with the call finished or in
/// need of the attributes of a file, and report at most one event for each
/// subscription that is ready.
pub proof fn lemma_report_wf(v: PollView, table: DescriptorTable)
    requires
        poll_wf(v),
        v.phase == PollPhase::Reporting,
    ensures
        poll_wf(spec_report_from(v, table).0),
        spec_report_from(v, table).0.subs == v.subs,
        spec_report_from(v, table).0.ready == v.ready,
        spec_report_from(v, table).0.pollables == v.pollables,
        spec_report_from(v, table).0.errno == v.errno,
        match spec_report_from(v, table).1 {
            PollRequest::Finished => spec_report_from(v, table).0.phase == PollPhase::Finished,
            PollRequest::Stat(call) => {
                let w = spec_report_from(v, table).0;
                &&& w.phase == PollPhase::Reporting
                &&& v.index <= w.index < w.subs.len()
                &&& w.ready[w.index] != 0
                &&& spec_report(w.subs[w.index], table) == Reporting::Stat(call)
            },
            _ => false,
        },
    decreases v.subs.len() - v.index,
{
    lemma_report_unfold(v, table);
    if v.index >= v.subs.len() {
    } else if v.ready[v.index] == 0 {
        lemma_report_wf(PollView { index: v.index + 1, ..v }, table);
    } else {
        match spec_report(v.subs[v.index], table) {
            Reporting::Event(event) => {
                lemma_report_wf(
                    PollView { index: v.index + 1, events: v.events.push(event), ..v },
                    table,
                );
            },
            Reporting::Stat(_) => {},
        }
    }
}

/// One call of `poll_oneoff`.
pub struct Poll {
    subs: Vec<Subscription>,
    results: usize,
    phase: PollPhase,
    index: usize,
    pollables: Vec<Pollable>,
    now: Option<Datetime>,
    ready: Vec<u8>,
    events: Vec<Event>,
    errno: Errno,
}

/// What a call of `poll_oneoff` leaves behind.
#[derive(Debug)]
pub struct PollOutcome {
    /// The result of the call.
    pub errno: Errno,
    /// The events for the guest's buffer, in the order of their
    /// subscriptions. Their number is what the call reports.
    pub events: Vec<Event>,
    /// What was subscribed; each is to be handed back.
    pub release: Vec<Pollable>,
}

impl View for Poll {
    type V = PollView;

    closed spec fn view(&self) -> PollView {
        PollView {
            subs: self.subs@,
            results: self.results,
            phase: self.phase,
            index: self.index as int,
            pollables: self.pollables@,
            now: self.now,
            ready: self.ready@,
            events: self.events@,
            errno: self.errno,
        }
    }
}

impl Poll {
    /// The call is well formed.
    pub open spec fn wf(&self) -> bool {
        poll_wf(self@)
    }

    /// Starts a call for these subscriptions, with the guest's event buffer
    /// at the address `out`. The buffer must lie within the address space.
    pub fn begin(subs: Vec<Subscription>, out: usize) -> (r: Poll)
        requires
            out + subs@.len() * EVENT_SIZE <= usize::MAX,
        ensures
            r@ == spec_poll_begin(subs@, out),
            r.wf(),
    {
        let n: usize = subs.len();
        let empty: bool = n == 0;
        let results: usize = out + n * EVENT_SIZE - n;
        Poll {
            subs,
            results,
            phase: if empty {
                PollPhase::Finished
            } else {
                PollPhase::Subscribing
            },
            index: 0,
            pollables: Vec::new(),
            now: None,
            ready: Vec::new(),
            events: Vec::new(),
            errno: if empty {
                ERRNO_INVAL
            } else {
                ERRNO_SUCCESS
            },
        }
    }

    /// What was subscribed so far: what the wait waits on.
    pub fn pollables(&self) -> (r: &Vec<Pollable>)
        ensures
            r@ == self@.pollables,
    {
        &self.pollables
    }

    /// One step of the reports; says what is needed where the reports cannot
    /// go on by themselves.
    fn report_step(&mut self, state: &State) -> (r: Option<PollRequest>)
        requires
            old(self).wf(),
            old(self)@.phase == PollPhase::Reporting,
        ensures
            final(self).wf(),
            spec_report_from(final(self)@, state.table()) == spec_report_from(
                old(self)@,
                state.table(),
            ),
            match r {
                Some(request) => (final(self)@, request) == spec_report_from(
                    old(self)@,
                    state.table(),
                ),
                None => final(self)@.phase == PollPhase::Reporting && final(self)@.subs.len()
                    - final(self)@.index < old(self)@.subs.len() - old(self)@.index,
            },
    {
        proof {
            lemma_report_unfold(self@, state.table());
        }
        if self.index >= self.subs.len() {
            self.phase = PollPhase::Finished;
            proof {
                lemma_report_unfold(self@, state.table());
                assert(self@.phase == PollPhase::Finished);
            }
            Some(PollRequest::Finished)
        } else if self.ready[self.index] == 0 {
            self.index = self.index + 1;
            None
        } else {
            match report(state, &self.subs[self.index]) {
                Reporting::Event(event) => {
                    self.events.push(event);
                    self.index = self.index + 1;
                    None
                },
                Reporting::Stat(call) => Some(PollRequest::Stat(call)),
            }
        }
    }

    /// Does what the call can do by itself and says what it needs next.
    pub fn step(&mut self, state: &State) -> (r: PollRequest)
        requires
            old(self).wf(),
        ensures
            final(self).wf(),
            (final(self)@, r) == spec_step(
                old(self)@,
                state.table(),
                state.monotonic_clock(),
                state.wall_clock(),
            ),
    {
        match self.phase {
            PollPhase::Subscribing => match subscribe(state, &self.subs[self.index], self.now) {
                Subscribing::Fetch(call) => PollRequest::Fetch(call),
                Subscribing::Now(call) => PollRequest::Now(call),
                Subscribing::Subscribe(call) => PollRequest::Subscribe(call),
                Subscribing::Fail(errno) => {
                    self.phase = PollPhase::Finished;
                    self.errno = errno;
                    PollRequest::Finished
                },
            },
            PollPhase::Waiting => PollRequest::Wait(
                HostCall::PollOneoff {
                    into: ResultBuffer::Caller { ptr: self.results, len: self.subs.len() },
                },
            ),
            PollPhase::Reporting => {
                let mut request: Option<PollRequest> = None;
                while request.is_none()
                    invariant
                        self.wf(),
                        spec_report_from(self@, state.table()) == spec_report_from(
                            old(self)@,
                            state.table(),
                        ),
                        match request {
                            Some(request) => (self@, request) == spec_report_from(
                                old(self)@,
                                state.table(),
                            ),
                            None => self@.phase == PollPhase::Reporting,
                        },
                    decreases
                            (if request is None {
                                1nat
                            } else {
                                0nat
                            }),
                            self@.subs.len() - self@.index,
                {
                    request = self.report_step(state);
                }
                match request {
                    Some(request) => request,
                    None => PollRequest::Finished,
                }
            },
            PollPhase::Finished => PollRequest::Finished,
        }
    }

    /// Takes the current time of the wall clock.
    pub fn on_now(&mut self, now: Datetime)
        requires
            old(self).wf(),
            old(self)@.phase == PollPhase::Subscribing,
        ensures
            final(self).wf(),
            final(self)@ == (PollView { now: Some(now), ..old(self)@ }),
    {
        self.now = Some(now);
    }

    /// Takes what the subscription that is worked on was turned into.
    pub fn on_pollable(&mut self, pollable: Pollable)
        requires
            old(self).wf(),
            old(self)@.phase == PollPhase::Subscribing,
        ensures
            final(self).wf(),
            final(self)@ == spec_on_pollable(old(self)@, pollable),
    {
        self.pollables.push(pollable);
        self.now = None;
        self.index = self.index + 1;
        if self.index >= self.subs.len() {
            self.phase = PollPhase::Waiting;
        }
    }

    /// Takes what the wait wrote: one byte for each subscription, which is
    /// zero where the subscription is not ready.
    pub fn on_ready(&mut self, ready: Vec<u8>)
        requires
            old(self).wf(),
            old(self)@.phase == PollPhase::Waiting,
            ready@.len() == old(self)@.subs.len(),
        ensures
            final(self).wf(),
            final(self)@ == spec_on_ready(old(self)@, ready@),
    {
        self.ready = ready;
        self.index = 0;
        self.phase = PollPhase::Reporting;
    }

    /// Takes the attributes of the file of the subscription that is reported.
    pub fn on_stat(&mut self, state: &State, reply: Result<DescriptorStat, ErrorCode>)
        requires
            old(self).wf(),
            old(self)@.phase == PollPhase::Reporting,
            0 <= old(self)@.index < old(self)@.subs.len(),
        ensures
            final(self).wf(),
            final(self)@ == spec_poll_on_stat(old(self)@, state.table(), reply),
    {
        let sub = self.subs[self.index];
        let position: Filesize = match state.get_file_with_error(sub.id, ERRNO_BADF) {
            Ok(file) => file.position,
            Err(_) => 0,
        };
        self.events.push(read_event(&sub, position, reply));
        self.index = self.index + 1;
    }

    /// Ends the call: gives its result, the events for the guest, and what
    /// is to be handed back.
    pub fn finish(self) -> (r: PollOutcome)
        requires
            self.wf(),
            self@.phase == PollPhase::Finished,
        ensures
            r.errno == self@.errno,
            r.events@ == self@.events,
            r.events@.len() <= self@.subs.len(),
            r.release@ == self@.pollables,
    {
        PollOutcome { errno: self.errno, events: self.events, release: self.pollables }
    }
}

/// The event of subscription `i`, where `stats` gives the attributes that
/// the host reports for the file of a read subscription.
pub open spec fn spec_event_of(
    subs: Seq<Subscription>,
    table: DescriptorTable,
    stats: spec_fn(int) -> Result<DescriptorStat, ErrorCode>,
    i: int,
) -> Event {
    match spec_report(subs[i], table) {
        Reporting::Event(event) => event,
        Reporting::Stat(_) => spec_read_event(subs[i], spec_position(table, subs[i].id), stats(i)),
    }
}

/// The events of the subscriptions before `upto` that are ready, in the order
/// of the subscriptions.
pub open spec fn spec_events(
    subs: Seq<Subscription>,
    ready: Seq<u8>,
    table: DescriptorTable,
    stats: spec_fn(int) -> Result<DescriptorStat, ErrorCode>,
    upto: int,
) -> Seq<Event>
    decreases upto,
{
    if upto <= 0 {
        Seq::empty()
    } else if ready[upto - 1] == 0 {
        spec_events(subs, ready, table, stats, upto - 1)
    } else {
        spec_events(subs, ready, table, stats, upto - 1).push(
            spec_event_of(subs, table, stats, upto - 1),
        )
    }
}

/// The reports of a call to their end, where `stats` gives the attributes
/// that the host reports when the call asks for them.
#[verifier::opaque]
pub open spec fn spec_report_all(
    v: PollView,
    table: DescriptorTable,
    stats: spec_fn(int) -> Result<DescriptorStat, ErrorCode>,
) -> PollView
    decreases v.subs.len() - v.index, 1nat,
    when poll_wf(v) && v.phase == PollPhase::Reporting
    via spec_report_all_decreases
{
    let step = spec_report_from(v, table);
    match step.1 {
        PollRequest::Stat(_) => if step.0.index < step.0.subs.len() {
            spec_report_all(spec_poll_on_stat(step.0, table, stats(step.0.index)), table, stats)
        } else {
            step.0
        },
        _ => step.0,
    }
}

#[via_fn]
proof fn spec_report_all_decreases(
    v: PollView,
    table: DescriptorTable,
    stats: spec_fn(int) -> Result<DescriptorStat, ErrorCode>,
) {
    lemma_report_wf(v, table);
}

/// The reports up to where the call finishes or asks for the attributes of a
/// file add the events of the ready subscriptions that they pass.
pub proof fn lemma_report_from_events(
    v: PollView,
    table: DescriptorTable,
    stats: spec_fn(int) -> Result<DescriptorStat, ErrorCode>,
)
    requires
        poll_wf(v),
        v.phase == PollPhase::Reporting,
        v.events == spec_events(v.subs, v.ready, table, stats, v.index),
    ensures
        ({
            let step = spec_report_from(v, table);
            match step.1 {
                PollRequest::Stat(_) => step.0.events == spec_events(
                    v.subs,
                    v.ready,
                    table,
                    stats,
                    step.0.index,
                ),
                _ => step.0.events == spec_events(
                    v.subs,
                    v.ready,
                    table,
                    stats,
                    v.subs.len() as int,
                ),
            }
        }),
    decreases v.subs.len() - v.index,
{
    lemma_report_unfold(v, table);
    if v.index >= v.subs.len() {
    } else if v.ready[v.index] == 0 {
        lemma_report_from_events(PollView { index: v.index + 1, ..v }, table, stats);
    } else {
        match spec_report(v.subs[v.index], table) {
            Reporting::Event(event) => {
                lemma_report_from_events(
                    PollView { index: v.index + 1, events: v.events.push(event), ..v },
                    table,
                    stats,
                );
            },
            Reporting::Stat(_) => {},
        }
    }
}

/// A call reports exactly the events of the subscriptions that are ready, one
/// for each, in the order of the subscriptions.
pub proof fn lemma_ready_subscriptions_are_reported(
    v: PollView,
    table: DescriptorTable,
    stats: spec_fn(int) -> Result<DescriptorStat, ErrorCode>,
)
    requires
        poll_wf(v),
        v.phase == PollPhase::Reporting,
        v.events == spec_events(v.subs, v.ready, table, stats, v.index),
    ensures
        spec_report_all(v, table, stats).phase == PollPhase::Finished,
        spec_report_all(v, table, stats).errno == v.errno,
        spec_report_all(v, table, stats).events == spec_events(
            v.subs,
            v.ready,
            table,
            stats,
            v.subs.len() as int,
        ),
    decreases v.subs.len() - v.index,
{
    reveal(spec_report_all);
    lemma_report_wf(v, table);
    lemma_report_from_events(v, table, stats);
    let step = spec_report_from(v, table);
    match step.1 {
        PollRequest::Stat(_) => {
            let w = spec_poll_on_stat(step.0, table, stats(step.0.index));
            assert(w.events == spec_events(v.subs, v.ready, table, stats, w.index));
            lemma_ready_subscriptions_are_reported(w, table, stats);
        },
        _ => {},
    }
}

} // verus!
