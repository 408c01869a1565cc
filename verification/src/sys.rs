//! The vocabulary between the library and whoever talks to the operating
//! system for it.
//!
//! An operation never makes a system call. It returns a [`Step`]: either the
//! one call to make next, with the state to resume once the call has
//! returned, or the operation's result.

use crate::addr::SockaddrVm;
use crate::error::Error;
use vstd::prelude::*;

verus! {

/// What a handle holds in place of a descriptor once it is closed.
pub const CLOSED_FD: i32 = -1;

/// Number of pending connections a listener queues.
pub const LISTEN_BACKLOG: i32 = 128;

/// Size in bytes of the buffer that receives the security module's response.
pub const RESPONSE_CAPACITY: usize = 16384;

/// Path of the security-module device.
pub const NSM_DEVICE_PATH: &'static str = "/dev/nsm";

/// One call to the operating system.
#[derive(Debug, PartialEq, Eq)]
pub enum Syscall {
    /// Create a connection-oriented socket of the given address family.
    Socket { family: i32 },
    /// Allow the socket's address to be bound again without delay.
    ReuseAddress { fd: i32 },
    /// Bind the socket to the address.
    Bind { fd: i32, addr: SockaddrVm },
    /// Make the socket passive, queueing up to `backlog` connections.
    Listen { fd: i32, backlog: i32 },
    /// Wait for a peer and take its connection.
    Accept { fd: i32 },
    /// Connect the socket to the address.
    Connect { fd: i32, addr: SockaddrVm },
    /// Receive once, into a buffer of `len` bytes.
    Read { fd: i32, len: usize },
    /// Send `data` once.
    Write { fd: i32, data: Vec<u8> },
    /// Release the descriptor.
    Close { fd: i32 },
    /// Open the device at `path` for reading and writing.
    OpenDevice { path: &'static str },
    /// Hand the device one record that points at `request` and at a
    /// response buffer of `capacity` bytes.
    Exchange { fd: i32, command: u64, request: Vec<u8>, capacity: usize },
}

/// A system call as a mathematical value.
pub enum SyscallView {
    Socket { family: i32 },
    ReuseAddress { fd: i32 },
    Bind { fd: i32, addr: SockaddrVm },
    Listen { fd: i32, backlog: i32 },
    Accept { fd: i32 },
    Connect { fd: i32, addr: SockaddrVm },
    Read { fd: i32, len: usize },
    Write { fd: i32, data: Seq<u8> },
    Close { fd: i32 },
    OpenDevice { path: Seq<char> },
    Exchange { fd: i32, command: u64, request: Seq<u8>, capacity: usize },
}

impl View for Syscall {
    type V = SyscallView;

    open spec fn view(&self) -> SyscallView {
        match *self {
            Syscall::Socket { family } => SyscallView::Socket { family },
            Syscall::ReuseAddress { fd } => SyscallView::ReuseAddress { fd },
            Syscall::Bind { fd, addr } => SyscallView::Bind { fd, addr },
            Syscall::Listen { fd, backlog } => SyscallView::Listen { fd, backlog },
            Syscall::Accept { fd } => SyscallView::Accept { fd },
            Syscall::Connect { fd, addr } => SyscallView::Connect { fd, addr },
            Syscall::Read { fd, len } => SyscallView::Read { fd, len },
            Syscall::Write { fd, data } => SyscallView::Write { fd, data: data@ },
            Syscall::Close { fd } => SyscallView::Close { fd },
            Syscall::OpenDevice { path } => SyscallView::OpenDevice { path: path@ },
            Syscall::Exchange { fd, command, request, capacity } => SyscallView::Exchange {
                fd,
                command,
                request: request@,
                capacity,
            },
        }
    }
}

/// What a system call returned: its value and, where the value reports a
/// failure, the error number the system left behind.
#[derive(Clone, Copy, Debug, PartialEq, Eq, Structural)]
pub struct Status {
    /// The call's return value; negative when the call failed.
    pub ret: i32,
    /// The error number after the call; meaningful only when it failed.
    pub errno: i32,
}

/// Where an operation stands.
#[derive(Debug)]
pub enum Step<S, T> {
    /// The call to make next, and the state to resume with what it returns.
    Call { syscall: Syscall, state: S },
    /// The operation succeeded.
    Ready(T),
    /// The operation failed.
    Failed(Error),
}

/// A step as a mathematical value.
pub enum StepView<S, T> {
    Call { syscall: SyscallView, state: S },
    Ready(T),
    Failed(Error),
}

impl<S: View, T: View> View for Step<S, T> {
    type V = StepView<S::V, T::V>;

    open spec fn view(&self) -> StepView<S::V, T::V> {
        match *self {
            Step::Call { syscall, state } => StepView::Call { syscall: syscall@, state: state@ },
            Step::Ready(value) => StepView::Ready(value@),
            Step::Failed(error) => StepView::Failed(error),
        }
    }
}

/// The calls an operation makes, and the step it has reached, when it
/// starts at `step`, moves by `next` and is given `replies` in turn. Replies
/// beyond the operation's end are not consumed.
pub open spec fn run<S, T, R>(
    next: spec_fn(S, R) -> StepView<S, T>,
    step: StepView<S, T>,
    replies: Seq<R>,
) -> (Seq<SyscallView>, StepView<S, T>)
    decreases replies.len(),
{
    match step {
        StepView::Call { syscall, state } => if replies.len() == 0 {
            (seq![], step)
        } else {
            let (calls, end) = run(next, next(state, replies[0]), replies.drop_first());
            (seq![syscall] + calls, end)
        },
        _ => (seq![], step),
    }
}

} // verus!
