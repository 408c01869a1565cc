use enclave_native::error::Error;
use enclave_native::nsm::{nsm_request, DeviceReply, Requesting};
use enclave_native::sys::{Status, Step, Syscall, NSM_DEVICE_PATH, RESPONSE_CAPACITY};

fn status(ret: i32, errno: i32) -> DeviceReply {
    DeviceReply { status: Status { ret, errno }, response: Vec::new(), reported_len: 0 }
}

fn exchanged(response: Vec<u8>, reported_len: u64) -> DeviceReply {
    DeviceReply { status: Status { ret: 0, errno: 0 }, response, reported_len }
}

fn next_call(step: Step<Requesting, Vec<u8>>) -> (Syscall, Requesting) {
    match step {
        Step::Call { syscall, state } => (syscall, state),
        Step::Ready(bytes) => panic!("ready where a call was expected: {:?}", bytes),
        Step::Failed(error) => panic!("failed where a call was expected: {:?}", error),
    }
}

fn response_of(step: Step<Requesting, Vec<u8>>) -> Vec<u8> {
    match step {
        Step::Ready(bytes) => bytes,
        Step::Failed(error) => panic!("failed where a response was expected: {:?}", error),
        Step::Call { syscall, .. } => panic!("call where a response was expected: {:?}", syscall),
    }
}

fn error_of(step: Step<Requesting, Vec<u8>>) -> Error {
    match step {
        Step::Failed(error) => error,
        Step::Ready(bytes) => panic!("ready where a failure was expected: {:?}", bytes),
        Step::Call { syscall, .. } => panic!("call where a failure was expected: {:?}", syscall),
    }
}

#[test]
fn device_constants() {
    assert_eq!(NSM_DEVICE_PATH, "/dev/nsm");
    assert_eq!(RESPONSE_CAPACITY, 16384);
}

#[test]
fn request_opens_exchanges_and_closes() {
    let (call, state) = next_call(nsm_request(vec![0xA1, 0x01, 0x02]));
    assert_eq!(call, Syscall::OpenDevice { path: "/dev/nsm" });
    let (call, state) = next_call(state.resume(status(4, 0)));
    assert_eq!(
        call,
        Syscall::Exchange {
            fd: 4,
            command: 0xC020_0A00,
            request: vec![0xA1, 0x01, 0x02],
            capacity: 16384,
        }
    );
    let mut buffer = vec![0u8; 16384];
    buffer[..5].copy_from_slice(&[1, 2, 3, 4, 5]);
    let (call, state) = next_call(state.resume(exchanged(buffer, 5)));
    assert_eq!(call, Syscall::Close { fd: 4 });
    assert_eq!(response_of(state.resume(status(0, 0))), vec![1, 2, 3, 4, 5]);
}

#[test]
fn request_without_the_device_fails_as_unavailable() {
    let (_, state) = next_call(nsm_request(vec![1, 2, 3]));
    let error = error_of(state.resume(status(-1, 2)));
    assert_eq!(error, Error::DeviceOpen { errno: 2 });
    assert_eq!(
        error.message("No such file or directory (os error 2)"),
        "/dev/nsm open failed (not in enclave?): No such file or directory (os error 2)"
    );
}

#[test]
fn refused_exchange_closes_the_device_and_fails() {
    let (_, state) = next_call(nsm_request(vec![0xFF]));
    let (_, state) = next_call(state.resume(status(4, 0)));
    let refused = DeviceReply {
        status: Status { ret: -1, errno: 22 },
        response: vec![0u8; 16384],
        reported_len: 16384,
    };
    let (call, state) = next_call(state.resume(refused));
    assert_eq!(call, Syscall::Close { fd: 4 });
    let error = error_of(state.resume(status(0, 0)));
    assert_eq!(error, Error::Exchange { errno: 22 });
    assert_ne!(error, Error::DeviceOpen { errno: 22 });
}

#[test]
fn response_is_as_long_as_the_device_reported() {
    for reported in [0usize, 1, 2, 1000, 16383] {
        let (_, state) = next_call(nsm_request(Vec::new()));
        let (_, state) = next_call(state.resume(status(3, 0)));
        let buffer: Vec<u8> = (0..16384u32).map(|i| (i % 256) as u8).collect();
        let (_, state) = next_call(state.resume(exchanged(buffer.clone(), reported as u64)));
        let response = response_of(state.resume(status(0, 0)));
        assert_eq!(response.len(), reported);
        assert_eq!(response, buffer[..reported].to_vec());
    }
}

#[test]
fn response_fills_the_buffer_only_when_the_device_did() {
    let (_, state) = next_call(nsm_request(Vec::new()));
    let (_, state) = next_call(state.resume(status(3, 0)));
    let (_, state) = next_call(state.resume(exchanged(vec![7u8; 16384], 16384)));
    assert_eq!(response_of(state.resume(status(0, 0))), vec![7u8; 16384]);
}

#[test]
fn response_never_exceeds_the_buffer() {
    let (_, state) = next_call(nsm_request(Vec::new()));
    let (_, state) = next_call(state.resume(status(3, 0)));
    let (_, state) = next_call(state.resume(exchanged(vec![7u8; 16], 4000)));
    assert_eq!(response_of(state.resume(status(0, 0))), vec![7u8; 16]);
    let (_, state) = next_call(nsm_request(Vec::new()));
    let (_, state) = next_call(state.resume(status(3, 0)));
    let (_, state) = next_call(state.resume(exchanged(vec![7u8; 16], u64::MAX)));
    assert_eq!(response_of(state.resume(status(0, 0))), vec![7u8; 16]);
}

#[test]
fn result_does_not_depend_on_what_the_close_returns() {
    let (_, state) = next_call(nsm_request(vec![9]));
    let (_, state) = next_call(state.resume(status(3, 0)));
    let (_, state) = next_call(state.resume(exchanged(vec![5, 6, 7, 8], 2)));
    assert_eq!(response_of(state.resume(status(-1, 9))), vec![5, 6]);
}

#[test]
fn request_on_descriptor_zero() {
    let (_, state) = next_call(nsm_request(vec![9]));
    let (call, state) = next_call(state.resume(status(0, 0)));
    assert!(matches!(call, Syscall::Exchange { fd: 0, .. }));
    let (call, _) = next_call(state.resume(exchanged(vec![1], 1)));
    assert_eq!(call, Syscall::Close { fd: 0 });
}

#[test]
fn each_request_starts_afresh() {
    let (first, _) = next_call(nsm_request(vec![1]));
    let (second, _) = next_call(nsm_request(vec![2]));
    assert_eq!(first, Syscall::OpenDevice { path: "/dev/nsm" });
    assert_eq!(second, Syscall::OpenDevice { path: "/dev/nsm" });
}
