# l4ext

Extensions to the regular TCP APIs, as verified plans: socket options (buffer sizes, keepalive,
fast open, DSCP, marks, cookies, `TCP_INFO`, the original destination of a redirected connection),
and connecting from a chosen source address and port range, with transparency and a fallback.

- `src/` is the library, verified with Verus. It decides which calls are to be made on a socket, in
  which order and with which values, what their failures mean and what the bytes of their answers
  say. It makes no system call itself. The platform and the machine's byte order are arguments.
- `app/` performs the calls, with libc, socket2 and tokio, and holds a harness that tries the
  transparent-proxy options on a real network.
- `tests/` runs the library on concrete values.

One thing is trusted: how the standard library shows a span of time for debugging.
