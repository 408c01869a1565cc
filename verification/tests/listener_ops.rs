use enclave_native::addr::SockaddrVm;
use enclave_native::layout::ByteOrder;
use enclave_native::error::Error;
use enclave_native::listener::{Binding, VsockListener};
use enclave_native::sys::{Status, Step, Syscall, LISTEN_BACKLOG};

fn ok(ret: i32) -> Status {
    Status { ret, errno: 0 }
}

fn fail(errno: i32) -> Status {
    Status { ret: -1, errno }
}

fn call_of<S, T>(step: Step<S, T>) -> (Syscall, S) {
    match step {
        Step::Call { syscall, state } => (syscall, state),
        Step::Ready(_) => panic!("ready where a call was expected"),
        Step::Failed(error) => panic!("failed where a call was expected: {:?}", error),
    }
}

fn failure_of<S, T>(step: Step<S, T>) -> Error {
    match step {
        Step::Failed(error) => error,
        Step::Ready(_) => panic!("ready where a failure was expected"),
        Step::Call { syscall, .. } => panic!("call where a failure was expected: {:?}", syscall),
    }
}

fn value_of<S, T>(step: Step<S, T>) -> T {
    match step {
        Step::Ready(value) => value,
        Step::Failed(error) => panic!("failed where a value was expected: {:?}", error),
        Step::Call { syscall, .. } => panic!("call where a value was expected: {:?}", syscall),
    }
}

fn listener_on(fd: i32, port: u32) -> VsockListener {
    let (_, state) = call_of(VsockListener::bind(port));
    let (_, state) = call_of(state.resume(ok(fd)));
    let (_, state) = call_of(state.resume(ok(0)));
    let (_, state) = call_of(state.resume(ok(0)));
    value_of(state.resume(ok(0)))
}

fn bound_socket(fd: i32, port: u32) -> Binding {
    let (_, state) = call_of(VsockListener::bind(port));
    let (_, state) = call_of(state.resume(ok(fd)));
    let (_, state) = call_of(state.resume(ok(0)));
    state
}

#[test]
fn bind_makes_its_four_calls_in_order() {
    let (call, state) = call_of(VsockListener::bind(5005));
    assert_eq!(call, Syscall::Socket { family: 40 });
    let (call, state) = call_of(state.resume(ok(7)));
    assert_eq!(call, Syscall::ReuseAddress { fd: 7 });
    let (call, state) = call_of(state.resume(ok(0)));
    assert_eq!(call, Syscall::Bind { fd: 7, addr: SockaddrVm::any(5005) });
    let (call, state) = call_of(state.resume(ok(0)));
    assert_eq!(call, Syscall::Listen { fd: 7, backlog: 128 });
    assert_eq!(LISTEN_BACKLOG, 128);
    let mut listener = value_of(state.resume(ok(0)));
    assert_eq!(listener.close(), Some(Syscall::Close { fd: 7 }));
}

#[test]
fn bind_address_is_any_context_at_the_port() {
    let (_, state) = call_of(VsockListener::bind(0xABCD));
    let (_, state) = call_of(state.resume(ok(3)));
    let (call, _) = call_of(state.resume(ok(0)));
    let Syscall::Bind { fd, addr } = call else { panic!("not a bind: {:?}", call) };
    assert_eq!(fd, 3);
    assert_eq!(addr.family, 40);
    assert_eq!(addr.reserved, 0);
    assert_eq!(addr.port, 0xABCD);
    assert_eq!(addr.cid, 0xFFFF_FFFF);
    assert_eq!(addr.zero, [0; 4]);
    assert_eq!(
        addr.encode(ByteOrder::Little),
        [40, 0, 0, 0, 0xCD, 0xAB, 0, 0, 255, 255, 255, 255, 0, 0, 0, 0]
    );
}

#[test]
fn bind_on_descriptor_zero() {
    let (_, state) = call_of(VsockListener::bind(1));
    let (call, _) = call_of(state.resume(ok(0)));
    assert_eq!(call, Syscall::ReuseAddress { fd: 0 });
    let mut listener = listener_on(0, 1);
    assert_eq!(listener.close(), Some(Syscall::Close { fd: 0 }));
}

#[test]
fn bind_fails_when_no_socket_can_be_had() {
    let (_, state) = call_of(VsockListener::bind(5005));
    let error = failure_of(state.resume(fail(97)));
    assert_eq!(error, Error::Socket { errno: 97 });
}

#[test]
fn bind_ignores_a_failure_to_reuse_the_address() {
    let (_, state) = call_of(VsockListener::bind(5005));
    let (_, state) = call_of(state.resume(ok(4)));
    let (call, state) = call_of(state.resume(fail(92)));
    assert_eq!(call, Syscall::Bind { fd: 4, addr: SockaddrVm::any(5005) });
    let (_, state) = call_of(state.resume(ok(0)));
    let mut listener = value_of(state.resume(ok(0)));
    assert_eq!(listener.close(), Some(Syscall::Close { fd: 4 }));
}

#[test]
fn bind_to_a_port_in_use_releases_the_socket_and_fails() {
    let mut first = listener_on(5, 5005);
    let state = bound_socket(6, 5005);
    let (call, state) = call_of(state.resume(fail(98)));
    assert_eq!(call, Syscall::Close { fd: 6 });
    let error = failure_of(state.resume(ok(0)));
    assert_eq!(error, Error::Bind { port: 5005, errno: 98 });
    assert_eq!(
        error.message("Address already in use (os error 98)"),
        "bind(AF_VSOCK, port=5005) failed: Address already in use (os error 98)"
    );
    assert_eq!(first.close(), Some(Syscall::Close { fd: 5 }));
    let mut second = listener_on(6, 5005);
    assert_eq!(second.close(), Some(Syscall::Close { fd: 6 }));
}

#[test]
fn bind_keeps_the_error_of_the_bind_whatever_the_release_returns() {
    let state = bound_socket(6, 9);
    let (_, state) = call_of(state.resume(fail(13)));
    let error = failure_of(state.resume(fail(9)));
    assert_eq!(error, Error::Bind { port: 9, errno: 13 });
}

#[test]
fn bind_releases_the_socket_when_listen_fails() {
    let state = bound_socket(8, 77);
    let (call, state) = call_of(state.resume(ok(0)));
    assert_eq!(call, Syscall::Listen { fd: 8, backlog: 128 });
    let (call, state) = call_of(state.resume(fail(95)));
    assert_eq!(call, Syscall::Close { fd: 8 });
    let error = failure_of(state.resume(ok(0)));
    assert_eq!(error, Error::Listen { errno: 95 });
}

#[test]
fn accept_waits_on_the_listener_descriptor() {
    let listener = listener_on(7, 5005);
    let (call, _) = call_of(listener.accept());
    assert_eq!(call, Syscall::Accept { fd: 7 });
}

#[test]
fn accept_gives_a_stream_with_the_peer_identity() {
    let listener = listener_on(7, 5005);
    let (_, state) = call_of(listener.accept());
    let stream = state.complete(ok(9), SockaddrVm::new(3, 40123)).unwrap();
    assert_eq!(stream.fd(), 9);
    assert_eq!(stream.peer_cid(), 3);
    assert_eq!(stream.peer_port(), 40123);
}

#[test]
fn accept_reads_the_peer_from_the_record_as_it_is() {
    let listener = listener_on(7, 5005);
    let (_, state) = call_of(listener.accept());
    let zeroed = SockaddrVm::decode(&[0u8; 16], ByteOrder::Little);
    let stream = state.complete(ok(11), zeroed).unwrap();
    assert_eq!(stream.peer_cid(), 0);
    assert_eq!(stream.peer_port(), 0);
}

#[test]
fn accept_peer_is_the_connecting_side() {
    let connector = SockaddrVm::new(16, 0x9F31_0007);
    for order in [ByteOrder::Little, ByteOrder::Big] {
        let wire = connector.encode(order);
        let listener = listener_on(7, 5005);
        let (_, state) = call_of(listener.accept());
        let stream = state.complete(ok(9), SockaddrVm::decode(&wire, order)).unwrap();
        assert_eq!(stream.peer_cid(), 16);
        assert_eq!(stream.peer_port(), 0x9F31_0007);
    }
}

#[test]
fn accept_fails_with_the_system_error() {
    let listener = listener_on(7, 5005);
    let (_, state) = call_of(listener.accept());
    let error = state.complete(fail(24), SockaddrVm::new(0, 0)).unwrap_err();
    assert_eq!(error, Error::Accept { errno: 24 });
}

#[test]
fn accept_leaves_the_listener_usable() {
    let mut listener = listener_on(7, 5005);
    let (_, state) = call_of(listener.accept());
    let first = state.complete(ok(9), SockaddrVm::new(3, 1)).unwrap();
    let (call, state) = call_of(listener.accept());
    assert_eq!(call, Syscall::Accept { fd: 7 });
    let second = state.complete(ok(10), SockaddrVm::new(3, 2)).unwrap();
    assert_eq!(first.fd(), 9);
    assert_eq!(second.fd(), 10);
    assert_eq!(listener.close(), Some(Syscall::Close { fd: 7 }));
}

#[test]
fn accept_after_close_fails_as_closed() {
    let mut listener = listener_on(7, 5005);
    listener.close();
    let error = failure_of(listener.accept());
    assert_eq!(error, Error::ListenerClosed);
    assert!(error.is_closed());
    assert_eq!(error.message(""), "Listener already closed");
}

#[test]
fn listener_close_releases_once() {
    let mut listener = listener_on(7, 5005);
    assert_eq!(listener.close(), Some(Syscall::Close { fd: 7 }));
    assert_eq!(listener.close(), None);
    assert_eq!(listener.close(), None);
}
