# audio_recorder_manager

A dual-channel audio recorder (system audio plus microphone) with a
command-line interface, whose decisions are proved with Verus.

- `src/` is the verified library: session and file naming, formats and
  quality presets, the FFmpeg argument lists for merging, converting,
  compressing and concatenating, FFmpeg progress parsing, WAV header
  scanning, capture-packet handling, status records, recovery of
  interrupted sessions, the command-line parser, log-level selection,
  terminal output lines, configuration choice, and the state kept by the
  desktop front ends. Each public function states its result in its
  contract; the laws that tie several functions together are public proof
  functions.
- `app/` is the program around it: argument handling, files, processes
  (FFmpeg, FFprobe), the Windows capture threads, logging set-up, JSON
  status files and the transcription service calls.
- `tests/` runs the library on concrete values.
