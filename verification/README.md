# screencap

Capture of a Wayland output into shared-memory buffers, for a libav encoder.

`src/` is the library, verified with Verus:

- `pixel_format` — the `wl_shm` formats, the libav formats, and where each
  puts the channels of a pixel in memory.
- `ffmpeg_encoder` — which libav format the encoder reads a frame in.
- `screencopy_probe` — decoding a captured frame into pixels, and the state
  of a one-buffer `wlr_screencopy` probe.
- `packet_buffer` — the last thirty seconds of encoded packets.
- `wl_capture` — the pool of shared-memory buffers, the state that the
  image-copy-capture and `wlr_screencopy` events drive, and the errors.
- `halt` and `text` — the shared halt flag, and decimal formatting.

`app/` is the program around it: the Wayland connection and its event
dispatch, memory mapping, the encoder's C interface and the threads.
