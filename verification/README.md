# ffpipeline

Builds ffmpeg command lines that normalize a channel's media into HLS
segments: it picks the audio and video streams to play, chooses software or
hardware (CUDA, QSV, VAAPI, VideoToolbox, Vulkan) decoders and encoders,
lists the filters to apply, and lays out global options, inputs, output
options and the HLS muxer settings around a filter graph that the caller
builds.

The library under `src/` is verified with Verus: every public function states
in its contract what it returns, and `src/laws.rs` proves properties that span
functions (names that identify methods and filters, unique stream selection,
what optimizing a pipeline removes, round trips of the numbers written into
arguments).

- `src/pipeline.rs`: pipeline construction, optimization and its arguments.
- `src/accel/`, `src/hw_accel.rs`: the hardware acceleration methods.
- `src/probe.rs`: what ffprobe reports, stream selection, probe arguments.
- `src/ffmpeg_info.rs`: reading ffmpeg's `-hwaccels` and `-filters` listings.
- `src/config.rs`: a channel's configuration and how it is finalized.
- `app/`: the I/O around the library: running ffmpeg and ffprobe, reading
  JSON configurations and reports, and the float values they hold.
- `tests/`: tests of the library on concrete values.
