# KuruVoice

A light, low-latency real-time voice changer. The signal processing (noise
reduction, gate, auto gain, phase-vocoder pitch/formant, 1/f fluctuation,
EQ, harmonics, de-esser, compressor, limiter) works on floating-point
samples; the rules around it form a library verified with Verus.

## Layout

- `src/` — the verified library (`kuruvoice`):
  - `preset` — the twelve voice presets: keys, display names, parsing of
    preset names, and the parameter values each preset sets (in hundredths,
    which hold every preset value exactly).
  - `audio::virtual_cable` — detection of VB-CABLE / VoiceMeeter / BlackHole
    among output devices, and the microphone name to pick on the receiving
    side.
  - `audio::virtual_mic` — the set-up protocol of the native virtual
    microphone (PipeWire / PulseAudio): module arguments, reading `pactl`
    output, unloading order.
  - `audio::device` — device ordering, resolution of configured device
    names, the device listing.
  - `audio::engine` — stream planning: block size, driver buffer, ring buffer
    capacities, resampling.
  - `dsp` — the order of the processing chain, the frame bookkeeping of the
    short-time Fourier stages, the xorshift noise generator and delay-line
    lengths.
  - `cli`, `config`, `error`, `ai`, `text` — arguments and run mode,
    the device/application configuration sections, error messages, the
    inference block, and the text helpers everything above rests on.
- `tests/` — tests of the library.
- `app/` — the program: audio I/O (cpal), the processing stages, the TOML
  configuration, the dashboard GUI (eframe), and the command line.
