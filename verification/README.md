# degen-radio

The audio output of a terminal internet-radio player: a control core that is
verified with Verus, and the ordinary Rust that connects it to a device.

* `src/` is the core. `LocalPlayer` decides everything about the output: when a
  lost device is noticed and given up on, how long a call may wait for the audio
  thread, which of several overlapping tracks may touch the sink, what a reopened
  device starts with. It makes no call on a device; it hands out commands, asks for
  readings, and takes reports of what came of them. Each function states what it
  returns and what it makes of the player's state, over the model in `model.rs`.
  The laws in `history.rs`, `staging.rs`, `reopen.rs` and `volume.rs` say what holds
  over any sequence of events.
* `app/` opens devices through `rodio`, makes the calls, reads the clock, and runs
  the threads.
* `tests/` runs the core on concrete scenarios.

Durations and clock readings are counts of nanoseconds; gains are counted in parts
of ten thousand.

Building `app/` needs the system's ALSA development files on Linux.
