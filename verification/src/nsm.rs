//! The attestation channel: one request to the security module, one
//! response, over a device that is opened and closed within the call.

use crate::error::Error;
use crate::ioctl::{nsm_command, NSM_IOCTL_CMD};
use crate::sys::{
    run, Status, Step, StepView, Syscall, SyscallView, NSM_DEVICE_PATH, RESPONSE_CAPACITY,
};
use vstd::prelude::*;

verus! {

/// What the device exchange left behind.
#[derive(Debug, PartialEq, Eq)]
pub struct DeviceReply {
    /// What the pending call returned.
    pub status: Status,
    /// The response buffer after the exchange, at its full size. Empty for
    /// the calls that open and close the device.
    pub response: Vec<u8>,
    /// The length of the response half of the record after the exchange:
    /// what the device says it wrote.
    pub reported_len: u64,
}

/// A device reply as a mathematical value.
pub struct DeviceReplyView {
    pub status: Status,
    pub response: Seq<u8>,
    pub reported_len: u64,
}

impl View for DeviceReply {
    type V = DeviceReplyView;

    open spec fn view(&self) -> DeviceReplyView {
        DeviceReplyView {
            status: self.status,
            response: self.response@,
            reported_len: self.reported_len,
        }
    }
}

/// Where a request stands between two system calls.
pub enum RequestPhase {
    /// The device is being opened; `request` waits to be sent.
    Open { request: Seq<u8> },
    /// The exchange is under way on the device `fd`.
    Exchange { fd: i32 },
    /// The device is being closed; `outcome` is what the exchange gave.
    Close { outcome: Result<Seq<u8>, Error> },
}

/// The response that the exchange produced: the part of the buffer that the
/// device says it wrote.
pub open spec fn response_bytes(buffer: Seq<u8>, reported_len: u64) -> Seq<u8> {
    if reported_len < buffer.len() {
        buffer.take(reported_len as int)
    } else {
        buffer
    }
}

/// What the exchange gave: on failure the system's error, else the response.
pub open spec fn exchange_outcome(reply: DeviceReplyView) -> Result<Seq<u8>, Error> {
    if reply.status.ret < 0 {
        Err(Error::Exchange { errno: reply.status.errno })
    } else {
        Ok(response_bytes(reply.response, reply.reported_len))
    }
}

/// How a request starts.
pub open spec fn request_start(request: Seq<u8>) -> StepView<RequestPhase, Seq<u8>> {
    StepView::Call {
        syscall: SyscallView::OpenDevice { path: NSM_DEVICE_PATH@ },
        state: RequestPhase::Open { request },
    }
}

/// How a request goes on from `phase` once the pending call has left
/// `reply`. What the close of the device returns does not matter.
pub open spec fn request_next(phase: RequestPhase, reply: DeviceReplyView) -> StepView<
    RequestPhase,
    Seq<u8>,
> {
    match phase {
        RequestPhase::Open { request } => if reply.status.ret < 0 {
            StepView::Failed(Error::DeviceOpen { errno: reply.status.errno })
        } else {
            StepView::Call {
                syscall: SyscallView::Exchange {
                    fd: reply.status.ret,
                    command: NSM_IOCTL_CMD,
                    request,
                    capacity: RESPONSE_CAPACITY,
                },
                state: RequestPhase::Exchange { fd: reply.status.ret },
            }
        },
        RequestPhase::Exchange { fd } => StepView::Call {
            syscall: SyscallView::Close { fd },
            state: RequestPhase::Close { outcome: exchange_outcome(reply) },
        },
        RequestPhase::Close { outcome } => match outcome {
            Ok(response) => StepView::Ready(response),
            Err(error) => StepView::Failed(error),
        },
    }
}

/// A request in progress.
#[derive(Debug)]
pub struct Requesting {
    stage: Stage,
}

#[derive(Debug)]
enum Stage {
    Open { request: Vec<u8> },
    Exchange { fd: i32 },
    Close { outcome: Result<Vec<u8>, Error> },
}

impl View for Requesting {
    type V = RequestPhase;

    closed spec fn view(&self) -> RequestPhase {
        match self.stage {
            Stage::Open { request } => RequestPhase::Open { request: request@ },
            Stage::Exchange { fd } => RequestPhase::Exchange { fd },
            Stage::Close { outcome } => RequestPhase::Close {
                outcome: match outcome {
                    Ok(response) => Ok(response@),
                    Err(error) => Err(error),
                },
            },
        }
    }
}

impl Requesting {
    /// Goes on with what the pending call left behind.
    pub fn resume(self, reply: DeviceReply) -> (step: Step<Requesting, Vec<u8>>)
        ensures
            step@ == request_next(self@, reply@),
    {
        match self.stage {
            Stage::Open { request } => {
                if reply.status.ret < 0 {
                    Step::Failed(Error::DeviceOpen { errno: reply.status.errno })
                } else {
                    Step::Call {
                        syscall: Syscall::Exchange {
                            fd: reply.status.ret,
                            command: nsm_command(),
                            request,
                            capacity: RESPONSE_CAPACITY,
                        },
                        state: Requesting { stage: Stage::Exchange { fd: reply.status.ret } },
                    }
                }
            },
            Stage::Exchange { fd } => {
                let outcome = if reply.status.ret < 0 {
                    Err(Error::Exchange { errno: reply.status.errno })
                } else {
                    let mut response = reply.response;
                    if reply.reported_len < response.len() as u64 {
                        response.truncate(reply.reported_len as usize);
                    }
                    Ok(response)
                };
                Step::Call {
                    syscall: Syscall::Close { fd },
                    state: Requesting { stage: Stage::Close { outcome } },
                }
            },
            Stage::Close { outcome } => match outcome {
                Ok(response) => Step::Ready(response),
                Err(error) => Step::Failed(error),
            },
        }
    }
}

/// Starts one request to the security module. `request` is sent as it is;
/// the result is the module's response as it is.
pub fn nsm_request(request: Vec<u8>) -> (step: Step<Requesting, Vec<u8>>)
    ensures
        step@ == request_start(request@),
{
    Step::Call {
        syscall: Syscall::OpenDevice { path: NSM_DEVICE_PATH },
        state: Requesting { stage: Stage::Open { request } },
    }
}

/// The response is as long as the device reported, and holds the bytes at
/// the start of the buffer in their order. It is the whole buffer only where
/// the device reported at least the buffer's size.
pub proof fn lemma_response_length(buffer: Seq<u8>, reported_len: u64)
    ensures
        response_bytes(buffer, reported_len).is_prefix_of(buffer),
        reported_len <= buffer.len() ==> response_bytes(buffer, reported_len).len()
            == reported_len,
        reported_len < buffer.len() ==> response_bytes(buffer, reported_len) != buffer,
        reported_len >= buffer.len() ==> response_bytes(buffer, reported_len) == buffer,
{
}

/// The calls of a whole request and its result, by what the system answers.
///
/// With `replies` the answers in the order of the calls: where the device
/// cannot be opened, the request fails on the spot, as a failure to open.
/// Else one exchange is made, with the request as given and a buffer of
/// `RESPONSE_CAPACITY` bytes for the response, and the device is closed
/// after it, whether the exchange failed or not. Then the request fails as
/// a failed exchange, or gives the response.
pub proof fn lemma_request_run(request: Seq<u8>, replies: Seq<DeviceReplyView>)
    requires
        replies.len() >= 3,
    ensures
        ({
            let (calls, end) = run(
                |phase: RequestPhase, reply: DeviceReplyView| request_next(phase, reply),
                request_start(request),
                replies,
            );
            let fd = replies[0].status.ret;
            let exchange = SyscallView::Exchange {
                fd,
                command: NSM_IOCTL_CMD,
                request,
                capacity: RESPONSE_CAPACITY,
            };
            let open = SyscallView::OpenDevice { path: NSM_DEVICE_PATH@ };
            if replies[0].status.ret < 0 {
                &&& calls == seq![open]
                &&& end == StepView::<RequestPhase, Seq<u8>>::Failed(
                    Error::DeviceOpen { errno: replies[0].status.errno },
                )
            } else {
                &&& calls == seq![open, exchange, SyscallView::Close { fd }]
                &&& end == if replies[1].status.ret < 0 {
                    StepView::<RequestPhase, Seq<u8>>::Failed(
                        Error::Exchange { errno: replies[1].status.errno },
                    )
                } else {
                    StepView::<RequestPhase, Seq<u8>>::Ready(
                        response_bytes(replies[1].response, replies[1].reported_len),
                    )
                }
            }
        }),
{
    reveal_with_fuel(run, 4);
    let r1 = replies.drop_first();
    let r2 = r1.drop_first();
    assert(r1[0] == replies[1] && r2[0] == replies[2]);
    let (calls, end) = run(
        |phase: RequestPhase, reply: DeviceReplyView| request_next(phase, reply),
        request_start(request),
        replies,
    );
    let fd = replies[0].status.ret;
    let exchange = SyscallView::Exchange {
        fd,
        command: NSM_IOCTL_CMD,
        request,
        capacity: RESPONSE_CAPACITY,
    };
    let open = SyscallView::OpenDevice { path: NSM_DEVICE_PATH@ };
    if replies[0].status.ret < 0 {
        assert(calls =~= seq![open]);
    } else {
        assert(calls =~= seq![open, exchange, SyscallView::Close { fd }]);
    }
}

} // verus!
