# RF-Comp

A feed-forward stereo compressor for RackForge: a threshold, a ratio and a
soft knee, attack and release with a programme-dependent option, a peak or
RMS detector behind a high-pass sidechain, stereo link, makeup, a parallel
mix, and a gain-reduction meter.

## Layout

* `src/` is the library, verified with Verus: the parameter contract and the
  laws its table keeps, the settings block and its validation (including
  blocks from earlier layouts), the factory presets, the serialised state's
  layouts and bytes, and the routing between the host's interleaved blocks
  and the engine's stereo frames.
* `tests/` exercises the library on concrete values.
* `app/` is the bench program and the signal path around the library: the
  floating-point engine (detector, sidechain filter, static curve,
  ballistics), the host adapter, and the `render` and `curve` commands.

## Tenths

Every level, time, ratio and percentage the contract declares, and every
value a factory preset sets, is a whole number of tenths of its unit. The
library states them as such counts, exactly: a threshold of -18 dB is
`-180`, a release of 120 ms is `1200`. The engine turns a count into the
`f32` it stands for by dividing by ten, which gives the same value the
decimal literal would.

A host may set any value inside a range, not only whole tenths, so the
engine's own settings block and its validation of a host's value work in
floating point, in `app/`, against the library's table.
