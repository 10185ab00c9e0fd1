# mdns-sd-discovery

Service discovery through the operating system's own DNS-SD / mDNS stack, with
the logic proved by [Verus](https://github.com/verus-lang/verus).

- `src/` is the verified library: the data model (`browse`, `addr`, `txt`), the
  text and wire formats (`text`, `labels`, `txt`, `dbus`), and for each platform what to
  ask of it and what its answers mean (`linux` for Avahi, `macos` for
  mDNSResponder, `windows` for the Win32 DNS client). It performs no I/O.
- `app/` makes the calls: D-Bus, `dns_sd.h` and `windns.h`, and offers `browse`
  and `resolve` as async functions.
- `tests/` runs the library on concrete values.

Each public function states in its contract what it returns for every input. The
functions named `law_..` prove what holds across calls: that packed TXT records
come back as they were sent, that each announced service type is browsed once,
that a connection is released after the operations that share it.

A few functions of other crates and of the standard library are taken on trust:
lossy UTF-8 decoding, `Debug` quoting, UTF-16 encoding and decoding, D-Bus body
decoding, and the reading of an IP address. Each stands behind a small private function whose comment says
what is assumed of it.
