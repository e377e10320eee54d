# Trombone

Trombone is a library for low-latency audio I/O with native backends per
platform (AAudio and OpenSL ES on Android, WASAPI on Windows, PipeWire and
ALSA on Linux).

## Layout

- `src/` is the library, verified with Verus: stream settings, errors,
  metrics, the stream lifecycle, backend selection with fallback, and the
  validation, code mapping, buffer arithmetic and retry rules of each backend.
  Each public function states its result in its contract; the lifecycle and
  fallback laws stand as proof functions beside the code they are about.
- `app/` is the program around it: real-time callbacks on `f32` buffers,
  worker threads, and the calls into the native audio APIs. The stream
  lifecycle, backend choice and retries, and the metrics go through the
  library; the order of native calls inside one backend operation (such as
  the OpenSL ES start and cleanup sequence) is the program's.
- `tests/` runs the library on concrete values.
