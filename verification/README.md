# libchiaki

Rust bindings for libchiaki, the core library of chiaki-ng (PlayStation
remote play), with their decision logic verified by Verus.

- `src/` is the verified library. It holds everything of the bindings that
  is not a call into chiaki's C library: error-code handling, C-string
  checks and conversions, the parameter builders (connection, registration,
  discovery service options), discovery packets and socket addresses, the
  reading of events, registered hosts, discovered hosts and PSN devices out
  of chiaki's data, the audio-header and PCM-length checks, the growth of
  the feedback-history buffer and the join bookkeeping of a session.
  Each builder keeps its strings valid C strings as a type invariant.
- `app/` is the unverified layer: the bindgen bindings of the C library,
  the calls into it, the C callbacks, raw memory and ownership of chiaki's
  objects, and the float-based controller and motion code. It needs chiaki's
  installed headers and static library to build.
- `tests/` exercises the verified library without the C library.
