//! What can go wrong, and how it is worded.

use vstd::prelude::*;
use vstd::string::StringExecFns;

verus! {

/// A failed operation. Where the operating system refused a call, the
/// variant names the call and carries the error number the system gave.
#[derive(Clone, Copy, Debug, PartialEq, Eq, Structural)]
pub enum Error {
    /// No socket could be created.
    Socket { errno: i32 },
    /// The socket could not be bound to the port.
    Bind { port: u32, errno: i32 },
    /// The bound socket could not be made to listen.
    Listen { errno: i32 },
    /// Waiting for a peer failed.
    Accept { errno: i32 },
    /// The peer could not be reached.
    Connect { cid: u32, port: u32, errno: i32 },
    /// Receiving failed.
    Read { errno: i32 },
    /// Sending failed.
    Write { errno: i32 },
    /// The listener had been closed before the call.
    ListenerClosed,
    /// The stream had been closed before the call.
    StreamClosed,
    /// The security-module device could not be opened: the caller is not
    /// inside the secured environment.
    DeviceOpen { errno: i32 },
    /// The security module refused the exchange.
    Exchange { errno: i32 },
}

/// The character of one decimal digit.
pub open spec fn digit(d: nat) -> char
    recommends
        d < 10,
{
    if d == 0 {
        '0'
    } else if d == 1 {
        '1'
    } else if d == 2 {
        '2'
    } else if d == 3 {
        '3'
    } else if d == 4 {
        '4'
    } else if d == 5 {
        '5'
    } else if d == 6 {
        '6'
    } else if d == 7 {
        '7'
    } else if d == 8 {
        '8'
    } else {
        '9'
    }
}

/// A number in decimal, most significant digit first, without leading zeros.
pub open spec fn decimal(n: nat) -> Seq<char>
    decreases n,
{
    if n < 10 {
        seq![digit(n)]
    } else {
        decimal(n / 10).push(digit(n % 10))
    }
}

impl Error {
    /// The error number the operating system gave, where it refused a call.
    pub open spec fn errno_spec(self) -> Option<i32> {
        match self {
            Error::Socket { errno } => Some(errno),
            Error::Bind { errno, .. } => Some(errno),
            Error::Listen { errno } => Some(errno),
            Error::Accept { errno } => Some(errno),
            Error::Connect { errno, .. } => Some(errno),
            Error::Read { errno } => Some(errno),
            Error::Write { errno } => Some(errno),
            Error::ListenerClosed => None,
            Error::StreamClosed => None,
            Error::DeviceOpen { errno } => Some(errno),
            Error::Exchange { errno } => Some(errno),
        }
    }

    /// Whether the failure is the use of a handle after its close.
    pub open spec fn is_closed_spec(self) -> bool {
        self == Error::ListenerClosed || self == Error::StreamClosed
    }

    /// The wording of the failure, given the system's description of its
    /// error number.
    pub open spec fn message_spec(self, os: Seq<char>) -> Seq<char> {
        match self {
            Error::Socket { .. } => "socket(AF_VSOCK) failed: "@ + os,
            Error::Bind { port, .. } => "bind(AF_VSOCK, port="@ + decimal(port as nat)
                + ") failed: "@ + os,
            Error::Listen { .. } => "listen() failed: "@ + os,
            Error::Accept { .. } => "accept() failed: "@ + os,
            Error::Connect { cid, port, .. } => "connect(cid="@ + decimal(cid as nat) + ", port="@
                + decimal(port as nat) + ") failed: "@ + os,
            Error::Read { .. } => "read() failed: "@ + os,
            Error::Write { .. } => "write() failed: "@ + os,
            Error::ListenerClosed => "Listener already closed"@,
            Error::StreamClosed => "Stream already closed"@,
            Error::DeviceOpen { .. } => "/dev/nsm open failed (not in enclave?): "@ + os,
            Error::Exchange { .. } => "NSM ioctl failed: "@ + os,
        }
    }

    /// The error number the operating system gave, where it refused a call.
    pub fn errno(&self) -> (code: Option<i32>)
        ensures
            code == self.errno_spec(),
    {
        match self {
            Error::Socket { errno } => Some(*errno),
            Error::Bind { errno, .. } => Some(*errno),
            Error::Listen { errno } => Some(*errno),
            Error::Accept { errno } => Some(*errno),
            Error::Connect { errno, .. } => Some(*errno),
            Error::Read { errno } => Some(*errno),
            Error::Write { errno } => Some(*errno),
            Error::ListenerClosed => None,
            Error::StreamClosed => None,
            Error::DeviceOpen { errno } => Some(*errno),
            Error::Exchange { errno } => Some(*errno),
        }
    }

    /// Whether the failure is the use of a handle after its close.
    pub fn is_closed(&self) -> (closed: bool)
        ensures
            closed == self.is_closed_spec(),
    {
        match self {
            Error::ListenerClosed => true,
            Error::StreamClosed => true,
            _ => false,
        }
    }

    /// The wording of the failure. `os` is the system's description of the
    /// error number; a failure that carries none ignores it.
    pub fn message(&self, os: &str) -> (text: String)
        ensures
            text@ == self.message_spec(os@),
    {
        match self {
            Error::Socket { .. } => String::from_str("socket(AF_VSOCK) failed: ").concat(os),
            Error::Bind { port, .. } => {
                let number = decimal_string(*port);
                String::from_str("bind(AF_VSOCK, port=").concat(number.as_str()).concat(
                    ") failed: ",
                ).concat(os)
            },
            Error::Listen { .. } => String::from_str("listen() failed: ").concat(os),
            Error::Accept { .. } => String::from_str("accept() failed: ").concat(os),
            Error::Connect { cid, port, .. } => {
                let context = decimal_string(*cid);
                let number = decimal_string(*port);
                String::from_str("connect(cid=").concat(context.as_str()).concat(", port=").concat(
                    number.as_str(),
                ).concat(") failed: ").concat(os)
            },
            Error::Read { .. } => String::from_str("read() failed: ").concat(os),
            Error::Write { .. } => String::from_str("write() failed: ").concat(os),
            Error::ListenerClosed => String::from_str("Listener already closed"),
            Error::StreamClosed => String::from_str("Stream already closed"),
            Error::DeviceOpen { .. } => String::from_str(
                "/dev/nsm open failed (not in enclave?): ",
            ).concat(os),
            Error::Exchange { .. } => String::from_str("NSM ioctl failed: ").concat(os),
        }
    }
}

/// The text of one decimal digit.
fn digit_str(d: u32) -> (text: &'static str)
    requires
        d < 10,
    ensures
        text@ == seq![digit(d as nat)],
{
    proof {
        reveal_strlit("0");
        reveal_strlit("1");
        reveal_strlit("2");
        reveal_strlit("3");
        reveal_strlit("4");
        reveal_strlit("5");
        reveal_strlit("6");
        reveal_strlit("7");
        reveal_strlit("8");
        reveal_strlit("9");
    }
    let text = if d == 0 {
        "0"
    } else if d == 1 {
        "1"
    } else if d == 2 {
        "2"
    } else if d == 3 {
        "3"
    } else if d == 4 {
        "4"
    } else if d == 5 {
        "5"
    } else if d == 6 {
        "6"
    } else if d == 7 {
        "7"
    } else if d == 8 {
        "8"
    } else {
        "9"
    };
    assert(text@ =~= seq![digit(d as nat)]);
    text
}

/// A number written in decimal.
pub fn decimal_string(n: u32) -> (text: String)
    ensures
        text@ == decimal(n as nat),
    decreases n,
{
    if n < 10 {
        String::from_str(digit_str(n))
    } else {
        let text = decimal_string(n / 10).concat(digit_str(n % 10));
        assert(text@ =~= decimal(n as nat));
        text
    }
}

/// The number that a text of decimal digits stands for.
pub open spec fn decimal_value(text: Seq<char>) -> nat
    decreases text.len(),
{
    if text.len() == 0 {
        0
    } else {
        10 * decimal_value(text.drop_last()) + (text.last() as nat - '0' as nat) as nat
    }
}

/// The decimal text of a number stands for that number.
pub proof fn lemma_decimal_value(n: nat)
    ensures
        decimal_value(decimal(n)) == n,
    decreases n,
{
    if n < 10 {
        assert(decimal(n).drop_last() =~= Seq::<char>::empty());
        assert(decimal_value(decimal(n).drop_last()) == 0);
    } else {
        lemma_decimal_value(n / 10);
        assert(decimal(n).drop_last() =~= decimal(n / 10));
    }
}

/// A decimal text has no leading zero unless the number is zero, and holds
/// digits only.
pub proof fn lemma_decimal_shape(n: nat)
    ensures
        decimal(n).len() >= 1,
        n > 0 ==> decimal(n)[0] != '0',
        forall|i: int| 0 <= i < decimal(n).len() ==> '0' <= #[trigger] decimal(n)[i] <= '9',
    decreases n,
{
    if n >= 10 {
        lemma_decimal_shape(n / 10);
    }
}

} // verus!
