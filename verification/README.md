# popshot

A snipping tool for the COSMIC desktop, built around a library whose logic is
proved with Verus.

- `src/` is the verified library: capture modes and command-line parsing,
  activation requests, the screenshot cache (ids, file names, what the cleanup
  removes), desktop geometry and output bookkeeping, pixel cropping and
  masking, the delivery report, the local paths behind the portals' file URIs
  and what a Save As reports, and the application's state machine
  (`model.rs`), which turns events into a next state and a list of effects.
  PNG decoding and encoding, thumbnails, URI parsing and UUID parsing are done
  by the `image`, `url`, `uuid` and `rustix` crates behind small trusted wrappers.
- `tests/` runs the library on concrete values.
- `app/` is the program around it: D-Bus activation, the screenshot, file
  chooser and notification portals, clipboard, file I/O, and the COSMIC user
  interface, which feeds events to the state machine and carries out its
  effects. Floating-point selection geometry lives there too.
