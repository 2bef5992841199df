# zephyr_ffi

Rust pieces of a Zephyr (1.13) firmware: a TCP echo server over Zephyr's
socket API, a polled UART console driver, and greeting programs.

- `src/` is the verified library (Verus):
  - `byte_order`: network byte order of ports and IPv4 addresses;
  - `socket`: socket parameters, `Ipv4Addr`/`Ipv6Addr`/`InetAddr`/`InetAddr6`
    and the `struct sockaddr` bytes they stand for, the rule that turns a raw
    return value into a `Result`, and the peer address that `accept()` reports;
  - `echo`: the echo server as a state machine from call outcomes to the next
    socket call, with its laws;
  - `uart`: the flag-register logic of `poll_in`;
  - `io`: C strings for `printf`/`puts`; `device`: the `DriverApi` marker.
- `app/` is the firmware side: the Zephyr C functions, the socket calls, the
  console writer, device registration and the entry points, each of which
  takes its decisions from the library.
- `tests/` runs the library on concrete values.
