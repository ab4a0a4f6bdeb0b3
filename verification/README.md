# freemouse

An encrypted, self-hosted software KVM switch: one keyboard, mouse and
clipboard shared between machines on a local network. Moving the pointer off
the right edge of the screen hands input to the neighbouring machine; moving
it back off the left edge returns it.

The decisions of the program are a library verified with Verus; the program
around it (sockets, input devices, the clipboard, files) is ordinary Rust.

## Layout

- `src/` — the verified library.
  - `capture.rs`: edge detection from relative mouse motion, the remote/stop
    flags, the Linux key-code tables, and what each raw input event forwards
    or plays.
  - `sim_keys.rs`: the keys and buttons the Windows/macOS simulator plays.
  - `grab.rs`: the Windows/macOS input hook: its key and button tables and
    what it does with each event.
  - `network.rs`: protocol vocabulary, message kinds, read-loop decisions and
    the keep-alive timeout.
  - `frame.rs`: the `[length][nonce][ciphertext]` framing.
  - `crypto.rs`: Argon2id session keys, the HMAC authentication token and
    ChaCha20-Poly1305 sealing of frames.
  - `handshake.rs`: the PIN handshake and the client's connection attempts.
  - `pin.rs`: the six-digit PIN.
  - `tour.rs`: navigation of the setup tour.
  - `layout.rs`: the 2×2 workspace grid, its neighbours and the layout
    editor's moves.
  - `router.rs`: which neighbour the pointer crosses to.
  - `connection.rs`: peer bookkeeping, whom to dial, and event routing.
  - `clipboard.rs`: the clipboard monitor with echo prevention.
  - `file_transfer.rs`: the table of incoming file transfers.
- `tests/` — tests of the library.
- `app/` — the Linux program (`freemouse`): evdev capture and uinput
  playback, the TCP and UDP networking, the clipboard, files and the
  configuration on disk.
