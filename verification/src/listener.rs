//! A listener: a socket bound to a local port that takes inbound
//! connections from every context.

use crate::addr::{lemma_parse_layout, vsock_address, SockaddrVm, AF_VSOCK, VMADDR_CID_ANY};
use crate::error::Error;
use crate::layout::ByteOrder;
use crate::stream::{StreamView, VsockStream};
use crate::sys::{
    run, Status, Step, StepView, Syscall, SyscallView, CLOSED_FD, LISTEN_BACKLOG,
};
use vstd::prelude::*;

verus! {

/// A listener as a mathematical value: the descriptor it owns, if it is
/// still open.
pub struct ListenerView {
    pub descriptor: Option<i32>,
}

impl ListenerView {
    /// An open listener on `fd`.
    pub open spec fn open(fd: i32) -> ListenerView {
        ListenerView { descriptor: Some(fd) }
    }

    /// An open listener holds a descriptor that is not negative.
    pub open spec fn well_formed(self) -> bool {
        self.descriptor matches Some(fd) ==> fd >= 0
    }

    /// Whether the listener has been closed.
    pub open spec fn is_closed(self) -> bool {
        self.descriptor is None
    }

    /// The listener after a close.
    pub open spec fn closed(self) -> ListenerView {
        ListenerView { descriptor: None }
    }

    /// The call a close asks for: the release of the descriptor, if the
    /// listener still owns one.
    pub open spec fn release(self) -> Option<SyscallView> {
        match self.descriptor {
            Some(fd) => Some(SyscallView::Close { fd }),
            None => None,
        }
    }

    /// How an accept starts.
    pub open spec fn accept_step(self) -> StepView<(), StreamView> {
        match self.descriptor {
            Some(fd) => StepView::Call { syscall: SyscallView::Accept { fd }, state: () },
            None => StepView::Failed(Error::ListenerClosed),
        }
    }
}

/// What an accept gives once the system call has returned `status` and
/// stored the peer's address in `peer`: on failure the system's error, else
/// a stream on the new descriptor, with the peer's context-id and port.
pub open spec fn accept_result(status: Status, peer: SockaddrVm) -> Result<StreamView, Error> {
    if status.ret < 0 {
        Err(Error::Accept { errno: status.errno })
    } else {
        Ok(StreamView::open(status.ret, peer.cid, peer.port))
    }
}

/// Where a bind stands between two system calls.
#[derive(Clone, Copy, Debug, PartialEq, Eq, Structural)]
pub enum BindPhase {
    /// The socket is being created.
    Socket { port: u32 },
    /// Address reuse is being switched on for the socket `fd`.
    ReuseAddress { fd: i32, port: u32 },
    /// The socket is being bound.
    Bind { fd: i32, port: u32 },
    /// The socket is being made passive.
    Listen { fd: i32 },
    /// The socket is being released after the failure `error`.
    Abort { error: Error },
}

/// How a bind to `port` starts.
pub open spec fn bind_start(port: u32) -> StepView<BindPhase, ListenerView> {
    StepView::Call {
        syscall: SyscallView::Socket { family: AF_VSOCK },
        state: BindPhase::Socket { port },
    }
}

/// How a bind goes on from `phase` once the pending call has returned
/// `status`. Whether address reuse could be switched on does not matter.
pub open spec fn bind_next(phase: BindPhase, status: Status) -> StepView<BindPhase, ListenerView> {
    match phase {
        BindPhase::Socket { port } => if status.ret < 0 {
            StepView::Failed(Error::Socket { errno: status.errno })
        } else {
            StepView::Call {
                syscall: SyscallView::ReuseAddress { fd: status.ret },
                state: BindPhase::ReuseAddress { fd: status.ret, port },
            }
        },
        BindPhase::ReuseAddress { fd, port } => StepView::Call {
            syscall: SyscallView::Bind { fd, addr: vsock_address(VMADDR_CID_ANY, port) },
            state: BindPhase::Bind { fd, port },
        },
        BindPhase::Bind { fd, port } => if status.ret < 0 {
            StepView::Call {
                syscall: SyscallView::Close { fd },
                state: BindPhase::Abort { error: Error::Bind { port, errno: status.errno } },
            }
        } else {
            StepView::Call {
                syscall: SyscallView::Listen { fd, backlog: LISTEN_BACKLOG },
                state: BindPhase::Listen { fd },
            }
        },
        BindPhase::Listen { fd } => if status.ret < 0 {
            StepView::Call {
                syscall: SyscallView::Close { fd },
                state: BindPhase::Abort { error: Error::Listen { errno: status.errno } },
            }
        } else {
            StepView::Ready(ListenerView::open(fd))
        },
        BindPhase::Abort { error } => StepView::Failed(error),
    }
}

/// A listening socket: the handle of one descriptor, closable once.
#[derive(Debug)]
pub struct VsockListener {
    fd: i32,
}

impl View for VsockListener {
    type V = ListenerView;

    closed spec fn view(&self) -> ListenerView {
        ListenerView {
            descriptor: if self.fd == CLOSED_FD {
                None
            } else {
                Some(self.fd)
            },
        }
    }
}

/// A bind in progress.
#[derive(Debug)]
pub struct Binding {
    phase: BindPhase,
}

impl View for Binding {
    type V = BindPhase;

    closed spec fn view(&self) -> BindPhase {
        self.phase
    }
}

/// An accept whose system call is pending.
#[derive(Debug)]
pub struct Accepting {}

impl View for Accepting {
    type V = ();

    open spec fn view(&self) -> () {
        ()
    }
}

impl Binding {
    #[verifier::type_invariant]
    spec fn valid(self) -> bool {
        match self.phase {
            BindPhase::Socket { .. } => true,
            BindPhase::ReuseAddress { fd, .. } => fd >= 0,
            BindPhase::Bind { fd, .. } => fd >= 0,
            BindPhase::Listen { fd } => fd >= 0,
            BindPhase::Abort { .. } => true,
        }
    }

    /// Goes on with what the pending call returned.
    pub fn resume(self, status: Status) -> (step: Step<Binding, VsockListener>)
        ensures
            step@ == bind_next(self@, status),
            step matches Step::Ready(listener) ==> listener@.well_formed(),
    {
        proof {
            use_type_invariant(&self);
        }
        match self.phase {
            BindPhase::Socket { port } => {
                if status.ret < 0 {
                    Step::Failed(Error::Socket { errno: status.errno })
                } else {
                    Step::Call {
                        syscall: Syscall::ReuseAddress { fd: status.ret },
                        state: Binding { phase: BindPhase::ReuseAddress { fd: status.ret, port } },
                    }
                }
            },
            BindPhase::ReuseAddress { fd, port } => Step::Call {
                syscall: Syscall::Bind { fd, addr: SockaddrVm::any(port) },
                state: Binding { phase: BindPhase::Bind { fd, port } },
            },
            BindPhase::Bind { fd, port } => {
                if status.ret < 0 {
                    Step::Call {
                        syscall: Syscall::Close { fd },
                        state: Binding {
                            phase: BindPhase::Abort {
                                error: Error::Bind { port, errno: status.errno },
                            },
                        },
                    }
                } else {
                    Step::Call {
                        syscall: Syscall::Listen { fd, backlog: LISTEN_BACKLOG },
                        state: Binding { phase: BindPhase::Listen { fd } },
                    }
                }
            },
            BindPhase::Listen { fd } => {
                if status.ret < 0 {
                    Step::Call {
                        syscall: Syscall::Close { fd },
                        state: Binding {
                            phase: BindPhase::Abort {
                                error: Error::Listen { errno: status.errno },
                            },
                        },
                    }
                } else {
                    Step::Ready(VsockListener { fd })
                }
            },
            BindPhase::Abort { error } => Step::Failed(error),
        }
    }
}

impl Accepting {
    /// The result of the accept, given what the system call returned and
    /// the address it stored for the peer.
    pub fn complete(self, status: Status, peer: SockaddrVm) -> (result: Result<VsockStream, Error>)
        ensures
            match result {
                Ok(stream) => accept_result(status, peer) == Ok::<StreamView, Error>(stream@)
                    && stream@.well_formed(),
                Err(error) => accept_result(status, peer) == Err::<StreamView, Error>(error),
            },
    {
        if status.ret < 0 {
            Err(Error::Accept { errno: status.errno })
        } else {
            Ok(VsockStream::established(status.ret, peer.cid, peer.port))
        }
    }
}

impl VsockListener {
    #[verifier::type_invariant]
    spec fn valid(self) -> bool {
        self.fd >= CLOSED_FD
    }

    /// Starts a listener on `port`, open to every context.
    pub fn bind(port: u32) -> (step: Step<Binding, VsockListener>)
        ensures
            step@ == bind_start(port),
    {
        Step::Call {
            syscall: Syscall::Socket { family: AF_VSOCK },
            state: Binding { phase: BindPhase::Socket { port } },
        }
    }

    /// Starts waiting for one peer. A closed listener refuses, without a
    /// system call.
    pub fn accept(&self) -> (step: Step<Accepting, VsockStream>)
        ensures
            step@ == self@.accept_step(),
    {
        if self.fd == CLOSED_FD {
            Step::Failed(Error::ListenerClosed)
        } else {
            Step::Call { syscall: Syscall::Accept { fd: self.fd }, state: Accepting {} }
        }
    }

    /// Closes the listener. The first close returns the release of the
    /// descriptor, for the caller to make; every later one returns nothing.
    pub fn close(&mut self) -> (release: Option<Syscall>)
        ensures
            final(self)@ == old(self)@.closed(),
            match release {
                Some(call) => old(self)@.release() == Some(call@),
                None => old(self)@.release() is None,
            },
            release matches Some(Syscall::Close { fd }) ==> fd >= 0,
    {
        proof {
            use_type_invariant(&*self);
        }
        let fd = self.fd;
        self.fd = CLOSED_FD;
        if fd != CLOSED_FD {
            Some(Syscall::Close { fd })
        } else {
            None
        }
    }
}

/// A close releases the descriptor of an open listener and leaves the
/// listener closed; a close of a closed listener releases nothing and
/// changes nothing. So of two closes in a row only the first can release.
pub proof fn lemma_listener_closes_once(listener: ListenerView)
    ensures
        listener.closed().is_closed(),
        listener.release() is Some <==> !listener.is_closed(),
        listener.closed().release() is None,
        listener.closed().closed() == listener.closed(),
{
}

/// After a close, an accept fails as closed and asks for no system call.
pub proof fn lemma_closed_listener_refuses(listener: ListenerView)
    ensures
        listener.closed().accept_step() == StepView::<(), StreamView>::Failed(
            Error::ListenerClosed,
        ),
{
}

/// An accept on an open listener asks for one call on the listener's own
/// descriptor, and a successful one gives an open stream on the new
/// descriptor.
pub proof fn lemma_accept_on_open(fd: i32, status: Status, peer: SockaddrVm)
    ensures
        ListenerView::open(fd).accept_step() == (StepView::<(), StreamView>::Call {
            syscall: SyscallView::Accept { fd },
            state: (),
        }),
        status.ret >= 0 ==> accept_result(status, peer) == Ok::<StreamView, Error>(
            StreamView::open(status.ret, peer.cid, peer.port),
        ),
        status.ret < 0 ==> accept_result(status, peer) is Err,
{
}

/// Where the system stores, as the peer's address, the sixteen bytes of the
/// record `connector`, the stream that a successful accept gives names the
/// context-id and the port of `connector` as its peer.
pub proof fn lemma_accept_records_peer(status: Status, connector: SockaddrVm, order: ByteOrder)
    requires
        status.ret >= 0,
    ensures
        accept_result(status, SockaddrVm::parse(connector.layout(order), order)) == Ok::<
            StreamView,
            Error,
        >(StreamView::open(status.ret, connector.cid, connector.port)),
{
    lemma_parse_layout(connector, order);
}

/// The calls of a whole bind and its result, by what the system answers.
///
/// With `replies` the answers in the order of the calls: where no socket can
/// be had, the bind fails on the spot. Else address reuse is asked for and
/// its answer ignored, and the socket is bound to `port` in every context.
/// Where that or the listen after it fails, the socket is released and the
/// bind fails with the error of the call that failed. Else the result is a
/// listener on the socket, with a backlog of `LISTEN_BACKLOG`.
pub proof fn lemma_bind_run(port: u32, replies: Seq<Status>)
    requires
        replies.len() >= 5,
    ensures
        ({
            let (calls, end) = run(
                |phase: BindPhase, status: Status| bind_next(phase, status),
                bind_start(port),
                replies,
            );
            let fd = replies[0].ret;
            let socket = SyscallView::Socket { family: AF_VSOCK };
            let reuse = SyscallView::ReuseAddress { fd };
            let bind = SyscallView::Bind { fd, addr: vsock_address(VMADDR_CID_ANY, port) };
            let listen = SyscallView::Listen { fd, backlog: LISTEN_BACKLOG };
            let close = SyscallView::Close { fd };
            if replies[0].ret < 0 {
                &&& calls == seq![socket]
                &&& end == StepView::<BindPhase, ListenerView>::Failed(
                    Error::Socket { errno: replies[0].errno },
                )
            } else if replies[2].ret < 0 {
                &&& calls == seq![socket, reuse, bind, close]
                &&& end == StepView::<BindPhase, ListenerView>::Failed(
                    Error::Bind { port, errno: replies[2].errno },
                )
            } else if replies[3].ret < 0 {
                &&& calls == seq![socket, reuse, bind, listen, close]
                &&& end == StepView::<BindPhase, ListenerView>::Failed(
                    Error::Listen { errno: replies[3].errno },
                )
            } else {
                &&& calls == seq![socket, reuse, bind, listen]
                &&& end == StepView::<BindPhase, ListenerView>::Ready(ListenerView::open(fd))
            }
        }),
{
    reveal_with_fuel(run, 6);
    let r1 = replies.drop_first();
    let r2 = r1.drop_first();
    let r3 = r2.drop_first();
    let r4 = r3.drop_first();
    assert(r1[0] == replies[1] && r2[0] == replies[2] && r3[0] == replies[3]);
    let (calls, end) = run(
        |phase: BindPhase, status: Status| bind_next(phase, status),
        bind_start(port),
        replies,
    );
    let fd = replies[0].ret;
    let socket = SyscallView::Socket { family: AF_VSOCK };
    let reuse = SyscallView::ReuseAddress { fd };
    let bind = SyscallView::Bind { fd, addr: vsock_address(VMADDR_CID_ANY, port) };
    let listen = SyscallView::Listen { fd, backlog: LISTEN_BACKLOG };
    let close = SyscallView::Close { fd };
    if replies[0].ret < 0 {
        assert(calls =~= seq![socket]);
    } else if replies[2].ret < 0 {
        assert(calls =~= seq![socket, reuse, bind, close]);
    } else if replies[3].ret < 0 {
        assert(calls =~= seq![socket, reuse, bind, listen, close]);
    } else {
        assert(calls =~= seq![socket, reuse, bind, listen]);
    }
}

} // verus!
