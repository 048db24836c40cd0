# pony_renderer

A renderer that plays H.264 video and draws scripted vector art. The
decisions it makes are verified with Verus; the I/O around them is plain
Rust.

- `src/` — the verified library:
  - `video/video_handle.rs`: frame scheduling on a playback clock, frame
    dropping and seeking over the decoder's channel;
  - `video/reader.rs`: MP4 (AVCC) samples to an Annex B stream, track
    choice and the sample cursor;
  - `video/decoder_thread.rs`: copying decoded planes out of padded rows;
  - `video/decoder_loop.rs`, `video/reader_loop.rs`: the decisions of the
    decoder and reader threads, as step functions the threads run;
  - `thread_utils/custom_beams.rs`: a channel sender that may drop the
    oldest message to make room;
  - `cube.rs`, `video_example.rs`, `pipelines/`: mesh building;
  - `gpu/`: buffer bindings and texture row sizes;
  - `window_input.rs`: what window events do;
  - `canvas.rs`, `camera_controller.rs`, `frontend/`, `fs_utils.rs`,
    `shared.rs`: stroke settings by name, held movement keys, editor tabs,
    random file choice and shared cells.
- `tests/` — tests of the library on concrete values.
- `app/` — the program: ffmpeg decoding, the mp4 reader thread, the skia
  canvas, the QuickJS script runtime and the floating-point camera.
