# dmabuf_pipeline

Verified core of a zero-copy camera pipeline: a publisher captures frames with
V4L2, exports each buffer as a DMA-BUF and passes the descriptors over a Unix
socket; a subscriber imports them into EGL and draws them in a Wayland window.

- `src/` — the library, verified with Verus:
  - `fourcc` — V4L2/DRM pixel formats and the mapping between them;
  - `layout` — little-endian byte primitives;
  - `wire` — the socket protocol (handshake, buffer index, ack) and its checks;
  - `kabi` — the byte layout of the kernel structures passed to `ioctl`, and
    the request numbers;
  - `capture` — bookkeeping of a capture device and its buffers, teardown;
  - `egl` — extension detection, EGL attribute lists, the quad renderer's state;
  - `window` — the Wayland window's reaction to compositor events;
  - `session` — the per-frame protocol of publisher and subscriber as state machines.
- `tests/` — tests of the library.
- `app/` — the system calls (sockets, `ioctl`, EGL/GLES, Wayland) and the two
  programs: `dmabuf_pipeline publisher [...]` and `dmabuf_pipeline subscriber [...]`.
