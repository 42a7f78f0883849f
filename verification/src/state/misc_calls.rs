//! The calls of the flat interface that work on no descriptor: arguments,
//! environment, clocks, random data and the process itself.

use vstd::prelude::*;
use crate::capability::{
    Datetime, HostCall, MonotonicClock, Plan, ResultBuffer, Source, WallClock,
};
use crate::flat::{
    CLOCKID_MONOTONIC, CLOCKID_REALTIME, Clockid, ERRNO_INVAL, ERRNO_NOTSUP, ERRNO_OVERFLOW,
    ERRNO_SUCCESS, Errno, Exitcode, Fd, Fdflags, NANOS_PER_SECOND, Signal, Size, Timestamp,
};
use crate::records::Iovec;
use crate::state::{
    AllocationState, State, spec_state_available, state_available,
};
use crate::strings::{
    pack_strings, pack_variables, packed, packed_len, packed_offsets, strings_sizes,
    variables_sizes,
};

verus! {

/// The nanoseconds since the epoch that a wall-clock time stands for, or an
/// overflow where they do not fit a timestamp.
pub open spec fn spec_wall_time(time: Datetime) -> Result<Timestamp, Errno> {
    let nanos = time.seconds as int * NANOS_PER_SECOND as int + time.nanoseconds as int;
    if nanos <= u64::MAX as int {
        Ok(nanos as u64)
    } else {
        Err(ERRNO_OVERFLOW)
    }
}

/// Converts what a wall clock reports, a time or a resolution, into a flat
/// timestamp.
pub fn wall_time_to_timestamp(time: Datetime) -> (r: Result<Timestamp, Errno>)
    ensures
        r == spec_wall_time(time),
{
    match time.seconds.checked_mul(NANOS_PER_SECOND) {
        None => Err(ERRNO_OVERFLOW),
        Some(nanos) => match nanos.checked_add(time.nanoseconds as u64) {
            None => Err(ERRNO_OVERFLOW),
            Some(nanos) => Ok(nanos),
        },
    }
}

/// The operation that ends the process: a zero exit code is a success, any
/// other a failure.
pub fn proc_exit(rval: Exitcode) -> (r: HostCall)
    ensures
        r == (HostCall::Exit { success: rval == 0 }),
{
    HostCall::Exit { success: rval == 0 }
}

/// Sends a signal to the process. The adapter does not support it.
pub fn proc_raise(sig: Signal) -> (r: Errno)
    ensures
        r == ERRNO_NOTSUP,
{
    ERRNO_NOTSUP
}

/// Yields the processor. There is nothing to yield to, and the call
/// succeeds.
pub fn sched_yield() -> (r: Errno)
    ensures
        r == ERRNO_SUCCESS,
{
    ERRNO_SUCCESS
}

/// Accepts a connection. The adapter does not support sockets.
pub fn sock_accept(fd: Fd, flags: Fdflags) -> (r: Errno)
    ensures
        r == ERRNO_NOTSUP,
{
    ERRNO_NOTSUP
}

/// Receives a message from a socket. The adapter does not support sockets.
pub fn sock_recv(fd: Fd, ri_data: &Vec<Iovec>, ri_flags: u16) -> (r: Errno)
    ensures
        r == ERRNO_NOTSUP,
{
    ERRNO_NOTSUP
}

/// Sends a message on a socket. The adapter does not support sockets.
pub fn sock_send(fd: Fd, si_data: &Vec<Iovec>, si_flags: u16) -> (r: Errno)
    ensures
        r == ERRNO_NOTSUP,
{
    ERRNO_NOTSUP
}

/// Shuts down a socket. The adapter does not support sockets.
pub fn sock_shutdown(fd: Fd, how: u8) -> (r: Errno)
    ensures
        r == ERRNO_NOTSUP,
{
    ERRNO_NOTSUP
}

impl State {
    /// Returns the number of arguments and the size of the buffer that
    /// `args_get` fills: the bytes of each argument and one zero byte behind
    /// it. Without arguments both are zero.
    pub fn args_sizes_get(&self) -> (r: (Errno, Size, Size))
        requires
            self.wf(),
        ensures
            r.0 == ERRNO_SUCCESS,
            match self.args() {
                Some(args) => r.1 == args.len() && r.2 == packed_len(args),
                None => r.1 == 0 && r.2 == 0,
            },
    {
        match &self.args {
            Some(args) => {
                let (count, size) = strings_sizes(args);
                (ERRNO_SUCCESS, count, size)
            },
            None => (ERRNO_SUCCESS, 0, 0),
        }
    }

    /// Returns the arguments for a buffer at the address `argv_buf`: the
    /// contents of the buffer, which holds the arguments one behind the other,
    /// each followed by a zero byte, and the address of each argument. The
    /// buffer must lie within the address space.
    pub fn args_get(&self, argv_buf: usize) -> (r: (Errno, Vec<usize>, Vec<u8>))
        requires
            self.wf(),
            self.args() matches Some(args) ==> argv_buf + packed_len(args) <= usize::MAX,
        ensures
            r.0 == ERRNO_SUCCESS,
            match self.args() {
                Some(args) => {
                    &&& r.2@ == packed(args)
                    &&& r.1@.len() == args.len()
                    &&& forall|i: int|
                        0 <= i < args.len() ==> r.1@[i] == argv_buf + packed_offsets(args)[i]
                },
                None => r.1@.len() == 0 && r.2@.len() == 0,
            },
    {
        match &self.args {
            Some(args) => {
                let (pointers, buffer) = pack_strings(args, argv_buf);
                (ERRNO_SUCCESS, pointers, buffer)
            },
            None => (ERRNO_SUCCESS, Vec::new(), Vec::new()),
        }
    }

    /// Returns the number of environment variables and the size of the buffer
    /// that `environ_get` fills: for each variable its key, an equals sign, its
    /// value and a zero byte. While the process state cannot be used, both are
    /// zero. Where the variables are not known yet, they are to be recorded
    /// with `set_environment` first.
    pub fn environ_sizes_get(&self, allocation: AllocationState) -> (r: Plan<(Errno, Size, Size)>)
        requires
            self.wf(),
        ensures
            r == (if !spec_state_available(allocation) {
                Plan::Done((ERRNO_SUCCESS, 0usize, 0usize))
            } else {
                match self.env() {
                    None => Plan::Fetch(HostCall::GetEnvironment { into: ResultBuffer::Arena }),
                    Some(env) => Plan::Done(
                        (ERRNO_SUCCESS, env.len() as usize, packed_len(env) as usize),
                    ),
                }
            }),
    {
        if !state_available(allocation) {
            return Plan::Done((ERRNO_SUCCESS, 0, 0));
        }
        match &self.env_vars {
            None => Plan::Fetch(HostCall::GetEnvironment { into: ResultBuffer::Arena }),
            Some(vars) => {
                let (count, size) = variables_sizes(vars);
                Plan::Done((ERRNO_SUCCESS, count, size))
            },
        }
    }

    /// Returns the environment variables for a buffer at the address
    /// `environ_buf`: the contents of the buffer, which holds the variables one
    /// behind the other, each as key, equals sign, value and a zero byte, and
    /// the address of each variable. The buffer must lie within the address
    /// space. Where the variables are not known yet, they are to be recorded
    /// with `set_environment` first.
    pub fn environ_get(&self, environ_buf: usize) -> (r: Plan<(Errno, Vec<usize>, Vec<u8>)>)
        requires
            self.wf(),
            self.env() matches Some(env) ==> environ_buf + packed_len(env) <= usize::MAX,
        ensures
            match self.env() {
                None => (r matches Plan::Fetch(call) && call == (
                HostCall::GetEnvironment { into: ResultBuffer::Arena })),
                Some(env) => (r matches Plan::Done((errno, pointers, buffer)) && errno
                    == ERRNO_SUCCESS && buffer@ == packed(env) && pointers@.len() == env.len()
                    && forall|i: int|
                    0 <= i < env.len() ==> pointers@[i] == environ_buf + packed_offsets(env)[i]),
            },
    {
        match &self.env_vars {
            None => Plan::Fetch(HostCall::GetEnvironment { into: ResultBuffer::Arena }),
            Some(vars) => {
                let (pointers, buffer) = pack_variables(vars, environ_buf);
                Plan::Done((ERRNO_SUCCESS, pointers, buffer))
            },
        }
    }

    /// What a clock call asks for: the monotonic clock and the wall clock are
    /// asked for `what` once their handle is known; no other clock is
    /// supported.
    pub open spec fn spec_clock_plan(
        &self,
        id: Clockid,
        monotonic: spec_fn(MonotonicClock) -> HostCall, wall: spec_fn(WallClock) -> HostCall,
    ) -> Plan<Result<Timestamp, Errno>> {
        if id == CLOCKID_MONOTONIC {
            match self.monotonic_clock() {
                Some(clock) => Plan::Finish(monotonic(clock)),
                None => Plan::Fetch(HostCall::InstanceMonotonicClock),
            }
        } else if id == CLOCKID_REALTIME {
            match self.wall_clock() {
                Some(clock) => Plan::Finish(wall(clock)),
                None => Plan::Fetch(HostCall::InstanceWallClock),
            }
        } else {
            Plan::Done(Err(ERRNO_INVAL))
        }
    }

    /// Returns the resolution of a clock. The monotonic clock reports it as
    /// a timestamp; what the wall clock reports is translated by
    /// `wall_time_to_timestamp`. Where the handle of the clock is not known
    /// yet, it is to be recorded first.
    pub fn clock_res_get(&self, id: Clockid) -> (r: Plan<Result<Timestamp, Errno>>)
        ensures
            r == self.spec_clock_plan(
                id,
                |clock: MonotonicClock| HostCall::MonotonicResolution { clock },
                |clock: WallClock| HostCall::WallResolution { clock },
            ),
    {
        if id == CLOCKID_MONOTONIC {
            match self.instance_monotonic_clock() {
                Source::Ready(clock) => Plan::Finish(HostCall::MonotonicResolution { clock }),
                Source::Create(call) => Plan::Fetch(call),
            }
        } else if id == CLOCKID_REALTIME {
            match self.instance_wall_clock() {
                Source::Ready(clock) => Plan::Finish(HostCall::WallResolution { clock }),
                Source::Create(call) => Plan::Fetch(call),
            }
        } else {
            Plan::Done(Err(ERRNO_INVAL))
        }
    }

    /// Returns the time of a clock. While the process state cannot be used,
    /// the time is zero. The monotonic clock reports the time as a timestamp;
    /// what the wall clock reports is translated by `wall_time_to_timestamp`.
    /// Where the handle of the clock is not known yet, it is to be recorded
    /// first.
    pub fn clock_time_get(
        &self,
        allocation: AllocationState,
        id: Clockid,
        precision: Timestamp,
    ) -> (r: Plan<Result<Timestamp, Errno>>)
        ensures
            r == (if !spec_state_available(allocation) {
                Plan::Done(Ok(0u64))
            } else {
                self.spec_clock_plan(
                    id,
                    |clock: MonotonicClock| HostCall::MonotonicNow { clock },
                    |clock: WallClock| HostCall::WallNow { clock },
                )
            }),
    {
        if !state_available(allocation) {
            return Plan::Done(Ok(0));
        }
        if id == CLOCKID_MONOTONIC {
            match self.instance_monotonic_clock() {
                Source::Ready(clock) => Plan::Finish(HostCall::MonotonicNow { clock }),
                Source::Create(call) => Plan::Fetch(call),
            }
        } else if id == CLOCKID_REALTIME {
            match self.instance_wall_clock() {
                Source::Ready(clock) => Plan::Finish(HostCall::WallNow { clock }),
                Source::Create(call) => Plan::Fetch(call),
            }
        } else {
            Plan::Done(Err(ERRNO_INVAL))
        }
    }

    /// Fills a buffer with random data. While the process state cannot be
    /// used, the call succeeds and writes nothing. The length of the buffer
    /// must fit 32 bits.
    pub fn random_get(
        &self,
        allocation: AllocationState,
        buf: usize,
        buf_len: Size,
    ) -> (r: Plan<Errno>)
        requires
            spec_state_available(allocation) ==> buf_len <= u32::MAX,
        ensures
            r == (if !spec_state_available(allocation) {
                Plan::Done(ERRNO_SUCCESS)
            } else {
                Plan::Finish(
                    HostCall::GetRandomBytes {
                        len: buf_len as u64,
                        into: ResultBuffer::Caller { ptr: buf, len: buf_len },
                    },
                )
            }),
    {
        if !state_available(allocation) {
            return Plan::Done(ERRNO_SUCCESS);
        }
        Plan::Finish(
            HostCall::GetRandomBytes {
                len: buf_len as u64,
                into: ResultBuffer::Caller { ptr: buf, len: buf_len },
            },
        )
    }
}

} // verus!
