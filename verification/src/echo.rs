//! The decisions of the TCP echo server: which socket call comes next, given
//! the state of the server and the outcome of the previous call.
//!
//! The server opens an IPv6 stream socket, binds it to port 4242 on any
//! address and listens. It then accepts one client at a time and echoes
//! back what it receives, until a receive or a send fails; it then closes
//! the client and waits for the next one. A failure while setting up,
//! accepting or closing stops the server.

use vstd::prelude::*;
use crate::socket::{
    AddressFamily, Errno, InetAddr6, Ipv6Addr, RawFd, SockProtocol, SockType, AF_INET6,
};
use crate::byte_order::be16;

verus! {

/// The port on which the server listens.
pub const PORT: u16 = 4242;

/// The backlog handed to `listen()`.
pub const LISTEN_BACKLOG: i32 = 5;

/// The size of the buffer into which a client's data is received.
pub const ECHO_BUFFER_LEN: usize = 128;

/// What the server is waiting for.
#[derive(Clone, Copy, PartialEq, Eq, Debug, Structural)]
pub enum ServerState {
    /// The listening socket is being created.
    CreatingSocket,
    /// The listening socket is being bound.
    Binding { server: RawFd },
    /// The listening socket is being put into listening mode.
    Listening { server: RawFd },
    /// A client is being accepted.
    Accepting { server: RawFd },
    /// Data is being received from the client.
    Receiving { server: RawFd, client: RawFd },
    /// Received data is being sent back to the client.
    Sending { server: RawFd, client: RawFd },
    /// The client socket is being closed.
    Closing { server: RawFd, client: RawFd },
    /// The server has stopped after a failure.
    Halted,
}

/// Why the server stopped.
#[derive(Clone, Copy, PartialEq, Eq, Debug, Structural)]
pub enum Failure {
    CreateSocket,
    Bind,
    Listen,
    Accept,
    Close,
}

impl Failure {
    /// The message with which the server stops.
    pub fn message(self) -> (r: &'static str)
        ensures
            self == Failure::CreateSocket ==> r@ == "fail to create new socket."@,
            self == Failure::Bind ==> r@ == "fail to bind."@,
            self == Failure::Listen ==> r@ == "fail to listen."@,
            self == Failure::Accept ==> r@ == "fail to accept"@,
            self == Failure::Close ==> r@ == "fail to close"@,
    {
        match self {
            Failure::CreateSocket => "fail to create new socket.",
            Failure::Bind => "fail to bind.",
            Failure::Listen => "fail to listen.",
            Failure::Accept => "fail to accept",
            Failure::Close => "fail to close",
        }
    }
}

/// What the server reports besides its next call.
#[derive(Clone, Copy, PartialEq, Eq, Debug, Structural)]
pub enum Note {
    /// The server now waits for connections on `port`.
    Waiting { port: u16 },
    /// The connection with a client has been closed.
    ConnectionClosed,
}

/// The outcome of the call that the server made last.
pub enum Event {
    SocketCreated(Result<RawFd, Errno>),
    Bound(Result<(), Errno>),
    Listened(Result<(), Errno>),
    Accepted(Result<RawFd, Errno>),
    /// The result of `recv()` and the buffer that it filled.
    Received(Result<isize, Errno>, Vec<u8>),
    Sent(Result<isize, Errno>),
    Closed(Result<(), Errno>),
}

/// An [`Event`] with the received buffer seen as a sequence.
pub enum EventView {
    SocketCreated(Result<RawFd, Errno>),
    Bound(Result<(), Errno>),
    Listened(Result<(), Errno>),
    Accepted(Result<RawFd, Errno>),
    Received(Result<isize, Errno>, Seq<u8>),
    Sent(Result<isize, Errno>),
    Closed(Result<(), Errno>),
}

impl View for Event {
    type V = EventView;

    open spec fn view(&self) -> EventView {
        match self {
            Event::SocketCreated(r) => EventView::SocketCreated(*r),
            Event::Bound(r) => EventView::Bound(*r),
            Event::Listened(r) => EventView::Listened(*r),
            Event::Accepted(r) => EventView::Accepted(*r),
            Event::Received(r, buf) => EventView::Received(*r, buf@),
            Event::Sent(r) => EventView::Sent(*r),
            Event::Closed(r) => EventView::Closed(*r),
        }
    }
}

/// The next call the server makes.
pub enum Action {
    CreateSocket { domain: AddressFamily, ty: SockType, protocol: SockProtocol },
    Bind { fd: RawFd, addr: InetAddr6 },
    Listen { fd: RawFd, backlog: i32 },
    /// Wait for a client on `fd`.
    Accept { fd: RawFd },
    /// Receive at most `capacity` bytes from `fd`.
    Recv { fd: RawFd, capacity: usize },
    Send { fd: RawFd, data: Vec<u8> },
    Close { fd: RawFd },
    /// Stop the server, reporting the error number of the failed call.
    Fail { reason: Failure, errno: Errno },
}

/// An [`Action`] with its address and data seen as sequences.
pub enum ActionView {
    CreateSocket { domain: AddressFamily, ty: SockType, protocol: SockProtocol },
    /// Bind `fd` to the address whose family is `family` and whose remaining
    /// `struct sockaddr_in6` bytes are `data`.
    Bind { fd: RawFd, family: u16, data: Seq<u8> },
    Listen { fd: RawFd, backlog: i32 },
    Accept { fd: RawFd },
    Recv { fd: RawFd, capacity: usize },
    Send { fd: RawFd, data: Seq<u8> },
    Close { fd: RawFd },
    Fail { reason: Failure, errno: Errno },
}

impl View for Action {
    type V = ActionView;

    open spec fn view(&self) -> ActionView {
        match self {
            Action::CreateSocket { domain, ty, protocol } => ActionView::CreateSocket {
                domain: *domain,
                ty: *ty,
                protocol: *protocol,
            },
            Action::Bind { fd, addr } => ActionView::Bind {
                fd: *fd,
                family: addr.sin6_family(),
                data: addr.ffi_data(),
            },
            Action::Listen { fd, backlog } => ActionView::Listen { fd: *fd, backlog: *backlog },
            Action::Accept { fd } => ActionView::Accept { fd: *fd },
            Action::Recv { fd, capacity } => ActionView::Recv { fd: *fd, capacity: *capacity },
            Action::Send { fd, data } => ActionView::Send { fd: *fd, data: data@ },
            Action::Close { fd } => ActionView::Close { fd: *fd },
            Action::Fail { reason, errno } => ActionView::Fail { reason: *reason, errno: *errno },
        }
    }
}

/// The state the server moves to, the call it makes and what it reports.
pub struct Step {
    pub next: ServerState,
    pub action: Action,
    pub note: Option<Note>,
}

/// A [`Step`] seen through the views of its parts.
pub struct StepView {
    pub next: ServerState,
    pub action: ActionView,
    pub note: Option<Note>,
}

impl View for Step {
    type V = StepView;

    open spec fn view(&self) -> StepView {
        StepView { next: self.next, action: self.action@, note: self.note }
    }
}

/// The `struct sockaddr_in6` bytes after the family of the address the
/// server binds to: port 4242 and the IPv6 any address.
pub open spec fn server_address_data() -> Seq<u8> {
    be16(PORT) + Seq::new(16, |i: int| 0u8) + seq![0u8] + seq![0u8, 0u8, 0u8]
}

/// Whether `e` reports the outcome of the call that the server makes in
/// state `s`, with a received length that fits the buffer.
pub open spec fn answers(s: ServerState, e: EventView) -> bool {
    match s {
        ServerState::CreatingSocket => e is SocketCreated,
        ServerState::Binding { .. } => e is Bound,
        ServerState::Listening { .. } => e is Listened,
        ServerState::Accepting { .. } => e is Accepted,
        ServerState::Receiving { .. } => match e {
            EventView::Received(Ok(len), buf) => 0 <= len <= buf.len(),
            EventView::Received(Err(_), _) => true,
            _ => false,
        },
        ServerState::Sending { .. } => e is Sent,
        ServerState::Closing { .. } => e is Closed,
        ServerState::Halted => false,
    }
}

/// A step without a report.
pub open spec fn quiet(next: ServerState, action: ActionView) -> StepView {
    StepView { next, action, note: None }
}

/// Stopping the server for `reason`, the failed call having set `errno`.
pub open spec fn halt(reason: Failure, errno: Errno) -> StepView {
    quiet(ServerState::Halted, ActionView::Fail { reason, errno })
}

/// The server's transition: from state `s`, on the outcome `e` of the call
/// made in `s`.
pub open spec fn transition(s: ServerState, e: EventView) -> StepView
    recommends
        answers(s, e),
{
    match (s, e) {
        (ServerState::CreatingSocket, EventView::SocketCreated(Ok(fd))) => quiet(
            ServerState::Binding { server: fd },
            ActionView::Bind { fd, family: AF_INET6, data: server_address_data() },
        ),
        (ServerState::CreatingSocket, EventView::SocketCreated(Err(e))) => halt(Failure::CreateSocket, e),
        (ServerState::Binding { server }, EventView::Bound(Ok(_))) => quiet(
            ServerState::Listening { server },
            ActionView::Listen { fd: server, backlog: LISTEN_BACKLOG },
        ),
        (ServerState::Binding { .. }, EventView::Bound(Err(e))) => halt(Failure::Bind, e),
        (ServerState::Listening { server }, EventView::Listened(Ok(_))) => StepView {
            next: ServerState::Accepting { server },
            action: ActionView::Accept { fd: server },
            note: Some(Note::Waiting { port: PORT }),
        },
        (ServerState::Listening { .. }, EventView::Listened(Err(e))) => halt(Failure::Listen, e),
        (ServerState::Accepting { server }, EventView::Accepted(Ok(client))) => quiet(
            ServerState::Receiving { server, client },
            ActionView::Recv { fd: client, capacity: ECHO_BUFFER_LEN },
        ),
        (ServerState::Accepting { .. }, EventView::Accepted(Err(e))) => halt(Failure::Accept, e),
        (ServerState::Receiving { server, client }, EventView::Received(Ok(len), buf)) => quiet(
            ServerState::Sending { server, client },
            ActionView::Send { fd: client, data: buf.subrange(0, len as int) },
        ),
        (ServerState::Receiving { server, client }, EventView::Received(Err(_), _)) => quiet(
            ServerState::Closing { server, client },
            ActionView::Close { fd: client },
        ),
        (ServerState::Sending { server, client }, EventView::Sent(Ok(_))) => quiet(
            ServerState::Receiving { server, client },
            ActionView::Recv { fd: client, capacity: ECHO_BUFFER_LEN },
        ),
        (ServerState::Sending { server, client }, EventView::Sent(Err(_))) => quiet(
            ServerState::Closing { server, client },
            ActionView::Close { fd: client },
        ),
        (ServerState::Closing { server, .. }, EventView::Closed(Ok(_))) => StepView {
            next: ServerState::Accepting { server },
            action: ActionView::Accept { fd: server },
            note: Some(Note::ConnectionClosed),
        },
        (ServerState::Closing { .. }, EventView::Closed(Err(e))) => halt(Failure::Close, e),
        _ => arbitrary(),
    }
}

/// The address the server binds to: any IPv6 address, port 4242.
pub fn server_address() -> (r: InetAddr6)
    ensures
        r.sin6_family() == AF_INET6,
        r.ffi_data() == server_address_data(),
{
    let r = InetAddr6::new(Ipv6Addr::any(), PORT);
    assert(r.ffi_data() =~= server_address_data());
    r
}

/// The server's first step: create an IPv6 TCP stream socket.
pub fn start() -> (r: Step)
    ensures
        r@ == quiet(
            ServerState::CreatingSocket,
            ActionView::CreateSocket {
                domain: AddressFamily::Inet6,
                ty: SockType::Stream,
                protocol: SockProtocol::Tcp,
            },
        ),
{
    Step {
        next: ServerState::CreatingSocket,
        action: Action::CreateSocket {
            domain: AddressFamily::Inet6,
            ty: SockType::Stream,
            protocol: SockProtocol::Tcp,
        },
        note: None,
    }
}

fn stop(reason: Failure, errno: Errno) -> (r: Step)
    ensures
        r@ == halt(reason, errno),
{
    Step { next: ServerState::Halted, action: Action::Fail { reason, errno }, note: None }
}

/// The server's next step, from state `state`, on the outcome `event` of the
/// call it made in that state.
pub fn step(state: ServerState, event: Event) -> (r: Step)
    requires
        answers(state, event@),
    ensures
        r@ == transition(state, event@),
{
    match state {
        ServerState::CreatingSocket => match event {
            Event::SocketCreated(Ok(fd)) => Step {
                next: ServerState::Binding { server: fd },
                action: Action::Bind { fd, addr: server_address() },
                note: None,
            },
            Event::SocketCreated(Err(e)) => stop(Failure::CreateSocket, e),
            _ => unreached(),
        },
        ServerState::Binding { server } => match event {
            Event::Bound(Ok(_)) => Step {
                next: ServerState::Listening { server },
                action: Action::Listen { fd: server, backlog: LISTEN_BACKLOG },
                note: None,
            },
            Event::Bound(Err(e)) => stop(Failure::Bind, e),
            _ => unreached(),
        },
        ServerState::Listening { server } => match event {
            Event::Listened(Ok(_)) => Step {
                next: ServerState::Accepting { server },
                action: Action::Accept { fd: server },
                note: Some(Note::Waiting { port: PORT }),
            },
            Event::Listened(Err(e)) => stop(Failure::Listen, e),
            _ => unreached(),
        },
        ServerState::Accepting { server } => match event {
            Event::Accepted(Ok(client)) => Step {
                next: ServerState::Receiving { server, client },
                action: Action::Recv { fd: client, capacity: ECHO_BUFFER_LEN },
                note: None,
            },
            Event::Accepted(Err(e)) => stop(Failure::Accept, e),
            _ => unreached(),
        },
        ServerState::Receiving { server, client } => match event {
            Event::Received(Ok(len), buf) => {
                let mut data = buf;
                data.truncate(len as usize);
                Step {
                    next: ServerState::Sending { server, client },
                    action: Action::Send { fd: client, data },
                    note: None,
                }
            },
            Event::Received(Err(_), _) => Step {
                next: ServerState::Closing { server, client },
                action: Action::Close { fd: client },
                note: None,
            },
            _ => unreached(),
        },
        ServerState::Sending { server, client } => match event {
            Event::Sent(Ok(_)) => Step {
                next: ServerState::Receiving { server, client },
                action: Action::Recv { fd: client, capacity: ECHO_BUFFER_LEN },
                note: None,
            },
            Event::Sent(Err(_)) => Step {
                next: ServerState::Closing { server, client },
                action: Action::Close { fd: client },
                note: None,
            },
            _ => unreached(),
        },
        ServerState::Closing { server, .. } => match event {
            Event::Closed(Ok(_)) => Step {
                next: ServerState::Accepting { server },
                action: Action::Accept { fd: server },
                note: Some(Note::ConnectionClosed),
            },
            Event::Closed(Err(e)) => stop(Failure::Close, e),
            _ => unreached(),
        },
        ServerState::Halted => unreached(),
    }
}

/// The listening socket of the server in state `s`, once it has one.
pub open spec fn server_of(s: ServerState) -> Option<RawFd> {
    match s {
        ServerState::Binding { server } => Some(server),
        ServerState::Listening { server } => Some(server),
        ServerState::Accepting { server } => Some(server),
        ServerState::Receiving { server, .. } => Some(server),
        ServerState::Sending { server, .. } => Some(server),
        ServerState::Closing { server, .. } => Some(server),
        _ => None,
    }
}

/// The client that the server in state `s` is serving, if any.
pub open spec fn client_of(s: ServerState) -> Option<RawFd> {
    match s {
        ServerState::Receiving { client, .. } => Some(client),
        ServerState::Sending { client, .. } => Some(client),
        ServerState::Closing { client, .. } => Some(client),
        _ => None,
    }
}

/// The state reached from `s` through the outcomes `es`, one after another.
pub open spec fn run(s: ServerState, es: Seq<EventView>) -> ServerState
    decreases es.len(),
{
    if es.len() == 0 {
        s
    } else {
        run(transition(s, es[0]).next, es.drop_first())
    }
}

/// Whether each of `es` answers the call made in the state it finds the
/// server in, starting from `s`.
pub open spec fn run_answers(s: ServerState, es: Seq<EventView>) -> bool
    decreases es.len(),
{
    es.len() == 0 || (answers(s, es[0]) && run_answers(transition(s, es[0]).next, es.drop_first()))
}

/// What the server receives from a client it sends back to that client,
/// unchanged, and then waits for that client's next data.
pub proof fn law_echo_sends_back_what_was_received(
    s: ServerState,
    len: isize,
    buf: Seq<u8>,
)
    requires
        s is Receiving,
        0 <= len <= buf.len(),
    ensures
        transition(s, EventView::Received(Ok(len), buf)).action == (ActionView::Send {
            fd: client_of(s)->0,
            data: buf.subrange(0, len as int),
        }),
        transition(s, EventView::Received(Ok(len), buf)).next == (ServerState::Sending {
            server: server_of(s)->0,
            client: client_of(s)->0,
        }),
        transition(transition(s, EventView::Received(Ok(len), buf)).next, EventView::Sent(Ok(len))).action
            == (ActionView::Recv { fd: client_of(s)->0, capacity: ECHO_BUFFER_LEN }),
{
}

/// While a client is served, every call the server makes on a socket is made
/// on that client's socket.
pub proof fn law_calls_go_to_the_served_client(s: ServerState, e: EventView)
    requires
        answers(s, e),
        (s is Receiving || s is Sending),
    ensures
        match transition(s, e).action {
            ActionView::Send { fd, .. } => Some(fd) == client_of(s),
            ActionView::Recv { fd, .. } => Some(fd) == client_of(s),
            ActionView::Close { fd } => Some(fd) == client_of(s),
            _ => false,
        },
{
}

/// A failed receive or send ends the connection, not the server: the client
/// is closed and the server keeps its listening socket.
pub proof fn law_client_errors_close_the_client(
    s: ServerState,
    e: EventView,
    err: Errno,
    buf: Seq<u8>,
)
    requires
        answers(s, e),
        (s is Receiving && e == EventView::Received(Err(err), buf)) || (s is Sending && e
            == EventView::Sent(Err(err))),
    ensures
        transition(s, e).action == (ActionView::Close { fd: client_of(s)->0 }),
        transition(s, e).next == (ServerState::Closing {
            server: server_of(s)->0,
            client: client_of(s)->0,
        }),
        transition(s, e).note is None,
{
}

/// Once a client's socket is closed, the server waits for the next client on
/// the same listening socket.
pub proof fn law_closed_client_then_next_client(s: ServerState)
    requires
        s is Closing,
    ensures
        transition(s, EventView::Closed(Ok(()))).next == (ServerState::Accepting {
            server: server_of(s)->0,
        }),
        transition(s, EventView::Closed(Ok(()))).action == (ActionView::Accept {
            fd: server_of(s)->0,
        }),
        transition(s, EventView::Closed(Ok(()))).note == Some(Note::ConnectionClosed),
{
}

/// A failure to create, bind or listen on the server socket, to accept a
/// client or to close one stops the server, with the reason of the failure.
pub proof fn law_setup_failures_stop_the_server(s: ServerState, e: EventView, err: Errno)
    requires
        answers(s, e),
        e == EventView::SocketCreated(Err(err)) || e == EventView::Bound(Err(err)) || e
            == EventView::Listened(Err(err)) || e == EventView::Accepted(Err(err)) || e
            == EventView::Closed(Err(err)),
    ensures
        transition(s, e).next == ServerState::Halted,
        e is SocketCreated ==> transition(s, e).action == (ActionView::Fail {
            reason: Failure::CreateSocket,
            errno: err,
        }),
        e is Bound ==> transition(s, e).action == (ActionView::Fail {
            reason: Failure::Bind,
            errno: err,
        }),
        e is Listened ==> transition(s, e).action == (ActionView::Fail {
            reason: Failure::Listen,
            errno: err,
        }),
        e is Accepted ==> transition(s, e).action == (ActionView::Fail {
            reason: Failure::Accept,
            errno: err,
        }),
        e is Closed ==> transition(s, e).action == (ActionView::Fail {
            reason: Failure::Close,
            errno: err,
        }),
{
}

/// No outcome moves a server with a listening socket to another listening
/// socket: one step keeps it or stops the server.
pub proof fn law_server_socket_kept_by_step(s: ServerState, e: EventView)
    requires
        answers(s, e),
        server_of(s) is Some,
        transition(s, e).next != ServerState::Halted,
    ensures
        server_of(transition(s, e).next) == server_of(s),
{
}

/// Over any run of answered calls that does not end with the server stopped,
/// the server keeps the listening socket it had at the start.
pub proof fn law_server_socket_kept_by_run(s: ServerState, es: Seq<EventView>)
    requires
        server_of(s) is Some,
        run_answers(s, es),
        run(s, es) != ServerState::Halted,
    ensures
        server_of(run(s, es)) == server_of(s),
    decreases es.len(),
{
    if es.len() > 0 {
        let next = transition(s, es[0]).next;
        assert(run_answers(next, es.drop_first()));
        if next == ServerState::Halted {
            if es.drop_first().len() > 0 {
                assert(!answers(next, es.drop_first()[0]));
            }
            assert(run(next, es.drop_first()) == ServerState::Halted);
        } else {
            law_server_socket_kept_by_step(s, es[0]);
            law_server_socket_kept_by_run(next, es.drop_first());
        }
    }
}

/// A successful `socket()` -- any descriptor, 0 included -- never stops the
/// server: the new socket is bound to port 4242 (bytes 0x10 0x92 in network
/// order) on the IPv6 any address, with nothing reported.
pub proof fn law_created_socket_is_bound(fd: RawFd)
    ensures
        transition(ServerState::CreatingSocket, EventView::SocketCreated(Ok(fd))).next
            == (ServerState::Binding { server: fd }),
        transition(ServerState::CreatingSocket, EventView::SocketCreated(Ok(fd))).note is None,
        transition(ServerState::CreatingSocket, EventView::SocketCreated(Ok(fd))).action
            matches ActionView::Bind { fd: bound, family, data } && bound == fd && family == 2
            && data.len() == 22 && data[0] == 0x10 && data[1] == 0x92 && (forall|i: int|
            2 <= i < 22 ==> data[i] == 0u8),
{
    let data = server_address_data();
    assert(data.len() == 22);
    assert(forall|i: int| 2 <= i < 22 ==> data[i] == 0u8);
}

/// A bound socket is put into listening mode with backlog 5, and once it
/// listens the server reports that it waits on port 4242 and accepts on it.
pub proof fn law_bound_socket_listens_then_accepts(server: RawFd)
    ensures
        transition(ServerState::Binding { server }, EventView::Bound(Ok(()))).next
            == (ServerState::Listening { server }),
        transition(ServerState::Binding { server }, EventView::Bound(Ok(()))).action
            == (ActionView::Listen { fd: server, backlog: 5 }),
        transition(ServerState::Binding { server }, EventView::Bound(Ok(()))).note is None,
        transition(ServerState::Listening { server }, EventView::Listened(Ok(()))).next
            == (ServerState::Accepting { server }),
        transition(ServerState::Listening { server }, EventView::Listened(Ok(()))).action
            == (ActionView::Accept { fd: server }),
        transition(ServerState::Listening { server }, EventView::Listened(Ok(()))).note
            == Some(Note::Waiting { port: 4242 }),
{
}

/// An accepted client is read from, into a 128-byte buffer, silently.
pub proof fn law_accepted_client_is_read(server: RawFd, client: RawFd)
    ensures
        transition(ServerState::Accepting { server }, EventView::Accepted(Ok(client))).next
            == (ServerState::Receiving { server, client }),
        transition(ServerState::Accepting { server }, EventView::Accepted(Ok(client))).action
            == (ActionView::Recv { fd: client, capacity: 128 }),
        transition(ServerState::Accepting { server }, EventView::Accepted(Ok(client))).note is None,
{
}

/// A successful send keeps the connection open: the server reads the same
/// client again, into a 128-byte buffer, and reports nothing.
pub proof fn law_sent_data_then_read_again(server: RawFd, client: RawFd, n: isize)
    ensures
        transition(ServerState::Sending { server, client }, EventView::Sent(Ok(n))).next
            == (ServerState::Receiving { server, client }),
        transition(ServerState::Sending { server, client }, EventView::Sent(Ok(n))).action
            == (ActionView::Recv { fd: client, capacity: 128 }),
        transition(ServerState::Sending { server, client }, EventView::Sent(Ok(n))).note is None,
{
}

/// The server reports two things only: that it waits on port 4242, when its
/// socket has started listening, and that a connection was closed, when a
/// client's socket has been closed. Every other step reports nothing; in
/// particular accepting a client and echoing data report nothing.
pub proof fn law_what_the_server_reports(s: ServerState, e: EventView)
    requires
        answers(s, e),
    ensures
        transition(s, e).note == Some(Note::ConnectionClosed) <==> (s is Closing
            && e matches EventView::Closed(Ok(_))),
        transition(s, e).note == Some(Note::Waiting { port: 4242 }) <==> (s is Listening
            && e matches EventView::Listened(Ok(_))),
        transition(s, e).note is None <==> !((s is Closing && e matches EventView::Closed(Ok(_)))
            || (s is Listening && e matches EventView::Listened(Ok(_)))),
{
}

/// The server stops exactly when creating, binding or listening on its
/// socket, accepting a client or closing one fails; no successful call and no
/// failed receive or send stops it.
pub proof fn law_server_stops_only_on_failed_setup_accept_or_close(s: ServerState, e: EventView)
    requires
        answers(s, e),
    ensures
        transition(s, e).next == ServerState::Halted <==> (e matches EventView::SocketCreated(
            Err(_),
        ) || e matches EventView::Bound(Err(_)) || e matches EventView::Listened(Err(_))
            || e matches EventView::Accepted(Err(_)) || e matches EventView::Closed(Err(_))),
        transition(s, e).action is Fail <==> transition(s, e).next == ServerState::Halted,
{
}

} // verus!
