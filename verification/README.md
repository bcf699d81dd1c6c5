# lnxcast

A Miracast / RTSP screen-casting daemon for Linux. It captures the screen
through the XDG Desktop Portal, encodes it with GStreamer (VA-API where there
is hardware for it, x264 else), looks for Wi-Fi Direct sinks through
`wpa_supplicant`, and serves the stream at `rtsp://<host>:7236/live`.

- `src/` is the library: every decision of the daemon, with contracts that
  Verus proves. It performs no I/O. Each part is a state machine that says what
  to do next and takes in what came of it, beside plain functions (interface
  names, hardware addresses, pipeline elements, error texts).
- `app/` is the program: it performs what the library asks for, over `zbus`,
  `ashpd`, GStreamer and `tokio`.
- `tests/` run the library on concrete values.

Do not run it with `sudo`: the portal belongs to the desktop user's session.
