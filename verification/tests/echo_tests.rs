use zephyr_ffi::echo::{
    start, step, Action, Event, Failure, Note, ServerState, ECHO_BUFFER_LEN, LISTEN_BACKLOG, PORT,
};
use zephyr_ffi::socket::{AddressFamily, SockProtocol, SockType};

fn set_up() -> ServerState {
    let s = start();
    assert!(matches!(
        s.action,
        Action::CreateSocket {
            domain: AddressFamily::Inet6,
            ty: SockType::Stream,
            protocol: SockProtocol::Tcp
        }
    ));
    let s = step(s.next, Event::SocketCreated(Ok(3)));
    assert_eq!(s.next, ServerState::Binding { server: 3 });
    match &s.action {
        Action::Bind { fd, addr } => {
            assert_eq!(*fd, 3);
            let (sa, len) = addr.as_ffi_pair();
            assert_eq!(sa.family, 2);
            assert_eq!(&sa.data[0..2], &[0x10, 0x92]);
            assert!(sa.data[2..].iter().all(|b| *b == 0));
            assert_eq!(len, 24);
        }
        _ => panic!("expected bind"),
    }
    let s = step(s.next, Event::Bound(Ok(())));
    assert_eq!(s.next, ServerState::Listening { server: 3 });
    assert!(matches!(s.action, Action::Listen { fd: 3, backlog: 5 }));
    let s = step(s.next, Event::Listened(Ok(())));
    assert_eq!(s.next, ServerState::Accepting { server: 3 });
    assert!(matches!(s.action, Action::Accept { fd: 3 }));
    assert_eq!(s.note, Some(Note::Waiting { port: 4242 }));
    s.next
}

#[test]
fn constants() {
    assert_eq!(PORT, 4242);
    assert_eq!(LISTEN_BACKLOG, 5);
    assert_eq!(ECHO_BUFFER_LEN, 128);
}

#[test]
fn echoes_received_bytes_back() {
    let s = set_up();
    let s = step(s, Event::Accepted(Ok(7)));
    assert_eq!(s.next, ServerState::Receiving { server: 3, client: 7 });
    assert!(matches!(s.action, Action::Recv { fd: 7, capacity: 128 }));
    let mut buf = vec![0u8; 128];
    buf[..5].copy_from_slice(b"hello");
    let s = step(s.next, Event::Received(Ok(5), buf));
    assert_eq!(s.next, ServerState::Sending { server: 3, client: 7 });
    match &s.action {
        Action::Send { fd, data } => {
            assert_eq!(*fd, 7);
            assert_eq!(data.as_slice(), b"hello");
        }
        _ => panic!("expected send"),
    }
    let s = step(s.next, Event::Sent(Ok(5)));
    assert_eq!(s.next, ServerState::Receiving { server: 3, client: 7 });
    assert!(matches!(s.action, Action::Recv { fd: 7, capacity: 128 }));
}

#[test]
fn full_buffer_is_echoed_whole() {
    let s = set_up();
    let s = step(s, Event::Accepted(Ok(4)));
    let buf: Vec<u8> = (0..128u32).map(|i| i as u8).collect();
    let s = step(s.next, Event::Received(Ok(128), buf.clone()));
    match &s.action {
        Action::Send { fd: 4, data } => assert_eq!(data, &buf),
        _ => panic!("expected send"),
    }
}

#[test]
fn empty_receive_sends_nothing() {
    let s = set_up();
    let s = step(s, Event::Accepted(Ok(4)));
    let s = step(s.next, Event::Received(Ok(0), vec![9u8; 128]));
    match &s.action {
        Action::Send { fd: 4, data } => assert!(data.is_empty()),
        _ => panic!("expected send"),
    }
}

#[test]
fn receive_error_closes_client_then_accepts_again() {
    let s = set_up();
    let s = step(s, Event::Accepted(Ok(7)));
    let s = step(s.next, Event::Received(Err(104), vec![0u8; 128]));
    assert_eq!(s.next, ServerState::Closing { server: 3, client: 7 });
    assert!(matches!(s.action, Action::Close { fd: 7 }));
    let s = step(s.next, Event::Closed(Ok(())));
    assert_eq!(s.next, ServerState::Accepting { server: 3 });
    assert!(matches!(s.action, Action::Accept { fd: 3 }));
    assert_eq!(s.note, Some(Note::ConnectionClosed));
}

#[test]
fn send_error_closes_client() {
    let s = set_up();
    let s = step(s, Event::Accepted(Ok(8)));
    let s = step(s.next, Event::Received(Ok(1), vec![1u8; 128]));
    let s = step(s.next, Event::Sent(Err(32)));
    assert_eq!(s.next, ServerState::Closing { server: 3, client: 8 });
    assert!(matches!(s.action, Action::Close { fd: 8 }));
    assert_eq!(s.note, None);
}

#[test]
fn setup_failures_stop_the_server() {
    let s = step(start().next, Event::SocketCreated(Err(12)));
    assert_eq!(s.next, ServerState::Halted);
    assert!(matches!(s.action, Action::Fail { reason: Failure::CreateSocket, errno: 12 }));

    let s = step(ServerState::Binding { server: 3 }, Event::Bound(Err(98)));
    assert_eq!(s.next, ServerState::Halted);
    assert!(matches!(s.action, Action::Fail { reason: Failure::Bind, errno: 98 }));

    let s = step(ServerState::Listening { server: 3 }, Event::Listened(Err(98)));
    assert!(matches!(s.action, Action::Fail { reason: Failure::Listen, errno: 98 }));

    let s = step(ServerState::Accepting { server: 3 }, Event::Accepted(Err(24)));
    assert!(matches!(s.action, Action::Fail { reason: Failure::Accept, errno: 24 }));

    let s = step(ServerState::Closing { server: 3, client: 5 }, Event::Closed(Err(9)));
    assert_eq!(s.next, ServerState::Halted);
    assert!(matches!(s.action, Action::Fail { reason: Failure::Close, errno: 9 }));
}

#[test]
fn failure_messages() {
    assert_eq!(Failure::CreateSocket.message(), "fail to create new socket.");
    assert_eq!(Failure::Bind.message(), "fail to bind.");
    assert_eq!(Failure::Listen.message(), "fail to listen.");
    assert_eq!(Failure::Accept.message(), "fail to accept");
    assert_eq!(Failure::Close.message(), "fail to close");
}

#[test]
fn server_socket_kept_over_many_clients() {
    let mut s = set_up();
    for client in 10..20 {
        let st = step(s, Event::Accepted(Ok(client)));
        let st = step(st.next, Event::Received(Ok(2), vec![1u8; 128]));
        let st = step(st.next, Event::Sent(Ok(2)));
        let st = step(st.next, Event::Received(Err(104), vec![0u8; 128]));
        let st = step(st.next, Event::Closed(Ok(())));
        assert_eq!(st.next, ServerState::Accepting { server: 3 });
        s = st.next;
    }
}
