//! One established connection: a byte pipe between two fixed endpoints.

use crate::addr::{vsock_address, SockaddrVm, AF_VSOCK};
use crate::error::Error;
use crate::sys::{run, Status, Step, StepView, Syscall, SyscallView, CLOSED_FD};
use vstd::prelude::*;

verus! {

/// A stream as a mathematical value: the descriptor it owns, if it is still
/// open, and the peer it was created with.
pub struct StreamView {
    pub descriptor: Option<i32>,
    pub peer_cid: u32,
    pub peer_port: u32,
}

impl StreamView {
    /// An open stream on `fd` to the given peer.
    pub open spec fn open(fd: i32, peer_cid: u32, peer_port: u32) -> StreamView {
        StreamView { descriptor: Some(fd), peer_cid, peer_port }
    }

    /// An open stream holds a descriptor that is not negative.
    pub open spec fn well_formed(self) -> bool {
        self.descriptor matches Some(fd) ==> fd >= 0
    }

    /// Whether the stream has been closed.
    pub open spec fn is_closed(self) -> bool {
        self.descriptor is None
    }

    /// What the descriptor accessor shows: the descriptor, or the closed mark.
    pub open spec fn raw_fd(self) -> i32 {
        match self.descriptor {
            Some(fd) => fd,
            None => CLOSED_FD,
        }
    }

    /// The stream after a close: no descriptor, the same peer.
    pub open spec fn closed(self) -> StreamView {
        StreamView { descriptor: None, ..self }
    }

    /// The call a close asks for: the release of the descriptor, if the
    /// stream still owns one.
    pub open spec fn release(self) -> Option<SyscallView> {
        match self.descriptor {
            Some(fd) => Some(SyscallView::Close { fd }),
            None => None,
        }
    }

    /// How a read of up to `size` bytes starts.
    pub open spec fn read_step(self, size: u32) -> StepView<(), Seq<u8>> {
        match self.descriptor {
            Some(fd) => StepView::Call {
                syscall: SyscallView::Read { fd, len: size as usize },
                state: (),
            },
            None => StepView::Ready(Seq::empty()),
        }
    }

    /// How a write of `data` starts.
    pub open spec fn write_step(self, data: Seq<u8>) -> StepView<(), u32> {
        match self.descriptor {
            Some(fd) => StepView::Call { syscall: SyscallView::Write { fd, data }, state: () },
            None => StepView::Failed(Error::StreamClosed),
        }
    }
}

/// What a read gives once the system call has returned `count` and left
/// `buffer` behind: on failure the system's error, else the bytes the call
/// stored, which are the first `count` of the buffer.
pub open spec fn read_result(count: isize, errno: i32, buffer: Seq<u8>) -> Result<Seq<u8>, Error> {
    if count < 0 {
        Err(Error::Read { errno })
    } else if count <= buffer.len() {
        Ok(buffer.take(count as int))
    } else {
        Ok(buffer)
    }
}

/// What a write gives once the system call has returned `count`: on failure
/// the system's error, else the number of bytes the transport took, in 32
/// bits.
pub open spec fn write_result(count: isize, errno: i32) -> Result<u32, Error> {
    if count < 0 {
        Err(Error::Write { errno })
    } else {
        Ok(count as u32)
    }
}

/// Where a connect stands between two system calls.
#[derive(Clone, Copy, Debug, PartialEq, Eq, Structural)]
pub enum ConnectPhase {
    /// The socket is being created.
    Socket { cid: u32, port: u32 },
    /// The socket `fd` is being connected.
    Connect { fd: i32, cid: u32, port: u32 },
    /// The socket is being released after the failure `error`.
    Abort { error: Error },
}

/// How a connect to `port` in the context `cid` starts.
pub open spec fn connect_start(cid: u32, port: u32) -> StepView<ConnectPhase, StreamView> {
    StepView::Call {
        syscall: SyscallView::Socket { family: AF_VSOCK },
        state: ConnectPhase::Socket { cid, port },
    }
}

/// How a connect goes on from `phase` once the pending call has returned
/// `status`.
pub open spec fn connect_next(phase: ConnectPhase, status: Status) -> StepView<
    ConnectPhase,
    StreamView,
> {
    match phase {
        ConnectPhase::Socket { cid, port } => if status.ret < 0 {
            StepView::Failed(Error::Socket { errno: status.errno })
        } else {
            StepView::Call {
                syscall: SyscallView::Connect { fd: status.ret, addr: vsock_address(cid, port) },
                state: ConnectPhase::Connect { fd: status.ret, cid, port },
            }
        },
        ConnectPhase::Connect { fd, cid, port } => if status.ret < 0 {
            StepView::Call {
                syscall: SyscallView::Close { fd },
                state: ConnectPhase::Abort {
                    error: Error::Connect { cid, port, errno: status.errno },
                },
            }
        } else {
            StepView::Ready(StreamView::open(fd, cid, port))
        },
        ConnectPhase::Abort { error } => StepView::Failed(error),
    }
}

/// A connected stream: the handle of one descriptor, closable once, and the
/// identity of the peer, fixed at creation.
#[derive(Debug)]
pub struct VsockStream {
    fd: i32,
    peer_cid: u32,
    peer_port: u32,
}

impl View for VsockStream {
    type V = StreamView;

    closed spec fn view(&self) -> StreamView {
        StreamView {
            descriptor: if self.fd == CLOSED_FD {
                None
            } else {
                Some(self.fd)
            },
            peer_cid: self.peer_cid,
            peer_port: self.peer_port,
        }
    }
}

/// A connect in progress.
#[derive(Debug)]
pub struct Connecting {
    phase: ConnectPhase,
}

impl View for Connecting {
    type V = ConnectPhase;

    closed spec fn view(&self) -> ConnectPhase {
        self.phase
    }
}

/// A read whose system call is pending.
#[derive(Debug)]
pub struct Reading {}

impl View for Reading {
    type V = ();

    open spec fn view(&self) -> () {
        ()
    }
}

/// A write whose system call is pending.
#[derive(Debug)]
pub struct Writing {}

impl View for Writing {
    type V = ();

    open spec fn view(&self) -> () {
        ()
    }
}

impl Connecting {
    #[verifier::type_invariant]
    spec fn valid(self) -> bool {
        self.phase matches ConnectPhase::Connect { fd, .. } ==> fd >= 0
    }

    /// Goes on with what the pending call returned.
    pub fn resume(self, status: Status) -> (step: Step<Connecting, VsockStream>)
        ensures
            step@ == connect_next(self@, status),
            step matches Step::Ready(stream) ==> stream@.well_formed(),
    {
        proof {
            use_type_invariant(&self);
        }
        match self.phase {
            ConnectPhase::Socket { cid, port } => {
                if status.ret < 0 {
                    Step::Failed(Error::Socket { errno: status.errno })
                } else {
                    Step::Call {
                        syscall: Syscall::Connect {
                            fd: status.ret,
                            addr: SockaddrVm::new(cid, port),
                        },
                        state: Connecting {
                            phase: ConnectPhase::Connect { fd: status.ret, cid, port },
                        },
                    }
                }
            },
            ConnectPhase::Connect { fd, cid, port } => {
                if status.ret < 0 {
                    Step::Call {
                        syscall: Syscall::Close { fd },
                        state: Connecting {
                            phase: ConnectPhase::Abort {
                                error: Error::Connect { cid, port, errno: status.errno },
                            },
                        },
                    }
                } else {
                    Step::Ready(VsockStream::established(fd, cid, port))
                }
            },
            ConnectPhase::Abort { error } => Step::Failed(error),
        }
    }
}

impl Reading {
    /// The result of the read, given the count the system call returned, the
    /// error number it left and the buffer it was handed.
    pub fn complete(self, count: isize, errno: i32, buffer: Vec<u8>) -> (result: Result<
        Vec<u8>,
        Error,
    >)
        ensures
            match result {
                Ok(bytes) => read_result(count, errno, buffer@) == Ok::<Seq<u8>, Error>(bytes@),
                Err(error) => read_result(count, errno, buffer@) == Err::<Seq<u8>, Error>(error),
            },
    {
        if count < 0 {
            return Err(Error::Read { errno });
        }
        let mut bytes = buffer;
        bytes.truncate(count as usize);
        Ok(bytes)
    }
}

impl Writing {
    /// The result of the write, given the count the system call returned and
    /// the error number it left.
    pub fn complete(self, count: isize, errno: i32) -> (result: Result<u32, Error>)
        ensures
            result == write_result(count, errno),
            0 <= count <= u32::MAX ==> result == Ok::<u32, Error>(count as u32),
    {
        if count < 0 {
            Err(Error::Write { errno })
        } else {
            Ok(#[verifier::truncate] (count as u32))
        }
    }
}

impl VsockStream {
    #[verifier::type_invariant]
    spec fn valid(self) -> bool {
        self.fd >= CLOSED_FD
    }

    /// The stream that owns the connected descriptor `fd`.
    pub(crate) fn established(fd: i32, peer_cid: u32, peer_port: u32) -> (stream: VsockStream)
        requires
            fd >= 0,
        ensures
            stream@ == StreamView::open(fd, peer_cid, peer_port),
            stream@.well_formed(),
    {
        VsockStream { fd, peer_cid, peer_port }
    }

    /// Starts a connection to `port` in the context `cid`.
    pub fn connect(cid: u32, port: u32) -> (step: Step<Connecting, VsockStream>)
        ensures
            step@ == connect_start(cid, port),
    {
        Step::Call {
            syscall: Syscall::Socket { family: AF_VSOCK },
            state: Connecting { phase: ConnectPhase::Socket { cid, port } },
        }
    }

    /// Starts one read of up to `size` bytes. A closed stream reads as
    /// empty, without a system call.
    pub fn read(&self, size: u32) -> (step: Step<Reading, Vec<u8>>)
        ensures
            step@ == self@.read_step(size),
    {
        if self.fd == CLOSED_FD {
            let empty: Vec<u8> = Vec::new();
            assert(empty@ =~= Seq::<u8>::empty());
            Step::Ready(empty)
        } else {
            Step::Call {
                syscall: Syscall::Read { fd: self.fd, len: size as usize },
                state: Reading {},
            }
        }
    }

    /// Starts one write of `data`. A closed stream refuses, without a system
    /// call.
    pub fn write(&self, data: Vec<u8>) -> (step: Step<Writing, u32>)
        ensures
            step@ == self@.write_step(data@),
    {
        if self.fd == CLOSED_FD {
            Step::Failed(Error::StreamClosed)
        } else {
            Step::Call { syscall: Syscall::Write { fd: self.fd, data }, state: Writing {} }
        }
    }

    /// Closes the stream. The first close returns the release of the
    /// descriptor, for the caller to make; every later one returns nothing.
    pub fn close(&mut self) -> (release: Option<Syscall>)
        ensures
            final(self)@ == old(self)@.closed(),
            match release {
                Some(call) => old(self)@.release() == Some(call@),
                None => old(self)@.release() is None,
            },
            release matches Some(Syscall::Close { fd }) ==> fd >= 0,
    {
        proof {
            use_type_invariant(&*self);
        }
        let fd = self.fd;
        self.fd = CLOSED_FD;
        if fd != CLOSED_FD {
            Some(Syscall::Close { fd })
        } else {
            None
        }
    }

    /// The descriptor, or the closed mark once the stream is closed.
    pub fn fd(&self) -> (fd: i32)
        ensures
            fd == self@.raw_fd(),
            fd >= CLOSED_FD,
    {
        proof {
            use_type_invariant(self);
        }
        self.fd
    }

    /// The peer's context-id.
    pub fn peer_cid(&self) -> (cid: u32)
        ensures
            cid == self@.peer_cid,
    {
        self.peer_cid
    }

    /// The peer's port.
    pub fn peer_port(&self) -> (port: u32)
        ensures
            port == self@.peer_port,
    {
        self.peer_port
    }
}

/// A close releases the descriptor of an open stream and leaves the stream
/// closed, with the peer it had; a close of a closed stream releases nothing
/// and changes nothing. So of two closes in a row only the first can
/// release.
pub proof fn lemma_stream_closes_once(stream: StreamView)
    ensures
        stream.closed().is_closed(),
        stream.closed().peer_cid == stream.peer_cid,
        stream.closed().peer_port == stream.peer_port,
        stream.release() is Some <==> !stream.is_closed(),
        stream.closed().release() is None,
        stream.closed().closed() == stream.closed(),
{
}

/// After a close, a write fails as closed and a read gives no bytes, and
/// neither asks for a system call.
pub proof fn lemma_closed_stream_refuses(stream: StreamView, size: u32, data: Seq<u8>)
    ensures
        stream.closed().write_step(data) == StepView::<(), u32>::Failed(Error::StreamClosed),
        stream.closed().read_step(size) == StepView::<(), Seq<u8>>::Ready(Seq::empty()),
        stream.closed().raw_fd() == CLOSED_FD,
{
}

/// On an open stream a read and a write each ask for one call on the
/// stream's own descriptor: a read with a buffer of the size asked for, a
/// write with the data as given.
pub proof fn lemma_open_stream_calls(stream: StreamView, size: u32, data: Seq<u8>)
    requires
        !stream.is_closed(),
    ensures
        stream.read_step(size) == (StepView::<(), Seq<u8>>::Call {
            syscall: SyscallView::Read { fd: stream.raw_fd(), len: size as usize },
            state: (),
        }),
        stream.write_step(data) == (StepView::<(), u32>::Call {
            syscall: SyscallView::Write { fd: stream.raw_fd(), data },
            state: (),
        }),
{
}

/// A read that did not fail gives the bytes at the start of the buffer, in
/// their order, as many as the call counted and never more than the buffer
/// holds. A count of zero, the end of the stream, gives no bytes.
pub proof fn lemma_read_gives_prefix(count: isize, errno: i32, buffer: Seq<u8>)
    requires
        count >= 0,
    ensures
        read_result(count, errno, buffer) is Ok,
        ({
            let bytes = read_result(count, errno, buffer)->Ok_0;
            &&& bytes.len() == if count <= buffer.len() {
                count as int
            } else {
                buffer.len() as int
            }
            &&& bytes.is_prefix_of(buffer)
        }),
        count == 0 ==> read_result(count, errno, buffer) == Ok::<Seq<u8>, Error>(Seq::empty()),
{
    if count == 0 {
        assert(buffer.take(0) =~= Seq::<u8>::empty());
    }
}

/// A write that did not fail gives the count that the call returned.
pub proof fn lemma_write_gives_count(count: isize, errno: i32)
    ensures
        0 <= count <= u32::MAX ==> write_result(count, errno) == Ok::<u32, Error>(count as u32)
            && write_result(count, errno)->Ok_0 == count,
        count < 0 ==> write_result(count, errno) == Err::<u32, Error>(Error::Write { errno }),
{
}

/// What one read call left behind: the count it returned and the buffer it
/// was handed.
pub struct Arrival {
    pub count: isize,
    pub buffer: Seq<u8>,
}

/// The bytes that reads give one after the other, joined.
pub open spec fn reads_joined(arrivals: Seq<Arrival>) -> Seq<u8>
    decreases arrivals.len(),
{
    if arrivals.len() == 0 {
        Seq::empty()
    } else {
        let last = arrivals.last();
        reads_joined(arrivals.drop_last()) + match read_result(last.count, 0, last.buffer) {
            Ok(bytes) => bytes,
            Err(_) => Seq::empty(),
        }
    }
}

/// Whether the reads took `source` off the transport piece by piece: each
/// call stored, from the start of its buffer on, the bytes of `source` that
/// follow those that the calls before it stored.
pub open spec fn reads_carry(source: Seq<u8>, arrivals: Seq<Arrival>) -> bool
    decreases arrivals.len(),
{
    arrivals.len() == 0 || {
        let before = arrivals.drop_last();
        let last = arrivals.last();
        let offset = reads_joined(before).len();
        &&& reads_carry(source, before)
        &&& 0 <= last.count <= last.buffer.len()
        &&& offset + last.count <= source.len()
        &&& last.buffer.take(last.count as int) == source.subrange(
            offset as int,
            offset + last.count,
        )
    }
}

/// The bytes that writes hand to the transport one after the other, joined,
/// where each write is given what the writes before it left of `data` and
/// the transport takes the start of what it is given, as long as the write
/// reports.
pub open spec fn writes_joined(data: Seq<u8>, counts: Seq<isize>) -> Seq<u8>
    decreases counts.len(),
{
    if counts.len() == 0 {
        Seq::empty()
    } else {
        let before = writes_joined(data, counts.drop_last());
        let given = data.skip(before.len() as int);
        before + match write_result(counts.last(), 0) {
            Ok(taken) => given.take(taken as int),
            Err(_) => Seq::empty(),
        }
    }
}

/// Whether each write was counted within what it was given, and within 32
/// bits.
pub open spec fn writes_fit(data: Seq<u8>, counts: Seq<isize>) -> bool
    decreases counts.len(),
{
    counts.len() == 0 || {
        let before = writes_joined(data, counts.drop_last());
        &&& writes_fit(data, counts.drop_last())
        &&& before.len() <= data.len()
        &&& 0 <= counts.last() <= data.len() - before.len()
        &&& counts.last() <= u32::MAX
    }
}

/// Reads that take a source off the transport piece by piece give, joined,
/// the start of the source in its order; once they have given as many bytes
/// as the source has, they have given the source.
pub proof fn lemma_reads_reassemble(source: Seq<u8>, arrivals: Seq<Arrival>)
    requires
        reads_carry(source, arrivals),
    ensures
        reads_joined(arrivals).is_prefix_of(source),
        reads_joined(arrivals).len() == source.len() ==> reads_joined(arrivals) == source,
    decreases arrivals.len(),
{
    if arrivals.len() > 0 {
        lemma_reads_reassemble(source, arrivals.drop_last());
    }
    assert(reads_joined(arrivals) =~= source.take(reads_joined(arrivals).len() as int));
    if reads_joined(arrivals).len() == source.len() {
        assert(source.take(source.len() as int) =~= source);
    }
}

/// Writes that each go on behind what the writes before them handed over
/// hand over, joined, the start of the data in its order; once they have
/// handed over as many bytes as the data has, they have handed over the
/// data.
pub proof fn lemma_writes_hand_over(data: Seq<u8>, counts: Seq<isize>)
    requires
        writes_fit(data, counts),
    ensures
        writes_joined(data, counts).is_prefix_of(data),
        writes_joined(data, counts).len() == data.len() ==> writes_joined(data, counts) == data,
    decreases counts.len(),
{
    if counts.len() > 0 {
        lemma_writes_hand_over(data, counts.drop_last());
    }
    assert(writes_joined(data, counts) =~= data.take(writes_joined(data, counts).len() as int));
    if writes_joined(data, counts).len() == data.len() {
        assert(data.take(data.len() as int) =~= data);
    }
}

/// A payload that is written in pieces until all of it is handed over, and
/// read in pieces off a transport that keeps it whole and in order until as
/// many bytes are read as it has, arrives as it was written.
pub proof fn lemma_payload_crosses(payload: Seq<u8>, counts: Seq<isize>, arrivals: Seq<Arrival>)
    requires
        writes_fit(payload, counts),
        writes_joined(payload, counts).len() == payload.len(),
        reads_carry(writes_joined(payload, counts), arrivals),
        reads_joined(arrivals).len() == payload.len(),
    ensures
        reads_joined(arrivals) == payload,
{
    lemma_writes_hand_over(payload, counts);
    lemma_reads_reassemble(payload, arrivals);
}

/// The calls of a whole connect and its result, by what the system answers.
///
/// With `replies` the answers in the order of the calls: where no socket can
/// be had, the connect fails on the spot. Else the socket is connected to
/// `port` in the context `cid`. Where that fails, the socket is released and
/// the connect fails with the error of the connection. Else the result is a
/// stream on the socket, with `cid` and `port` as its peer.
pub proof fn lemma_connect_run(cid: u32, port: u32, replies: Seq<Status>)
    requires
        replies.len() >= 3,
    ensures
        ({
            let (calls, end) = run(
                |phase: ConnectPhase, status: Status| connect_next(phase, status),
                connect_start(cid, port),
                replies,
            );
            let fd = replies[0].ret;
            let socket = SyscallView::Socket { family: AF_VSOCK };
            let connect = SyscallView::Connect { fd, addr: vsock_address(cid, port) };
            let close = SyscallView::Close { fd };
            if replies[0].ret < 0 {
                &&& calls == seq![socket]
                &&& end == StepView::<ConnectPhase, StreamView>::Failed(
                    Error::Socket { errno: replies[0].errno },
                )
            } else if replies[1].ret < 0 {
                &&& calls == seq![socket, connect, close]
                &&& end == StepView::<ConnectPhase, StreamView>::Failed(
                    Error::Connect { cid, port, errno: replies[1].errno },
                )
            } else {
                &&& calls == seq![socket, connect]
                &&& end == StepView::<ConnectPhase, StreamView>::Ready(
                    StreamView::open(fd, cid, port),
                )
            }
        }),
{
    reveal_with_fuel(run, 4);
    let r1 = replies.drop_first();
    let r2 = r1.drop_first();
    assert(r1[0] == replies[1] && r2[0] == replies[2]);
    let (calls, end) = run(
        |phase: ConnectPhase, status: Status| connect_next(phase, status),
        connect_start(cid, port),
        replies,
    );
    let fd = replies[0].ret;
    let socket = SyscallView::Socket { family: AF_VSOCK };
    let connect = SyscallView::Connect { fd, addr: vsock_address(cid, port) };
    let close = SyscallView::Close { fd };
    if replies[0].ret < 0 {
        assert(calls =~= seq![socket]);
    } else if replies[1].ret < 0 {
        assert(calls =~= seq![socket, connect, close]);
    } else {
        assert(calls =~= seq![socket, connect]);
    }
}

} // verus!
