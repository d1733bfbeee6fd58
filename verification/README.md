# faderpunk

Firmware logic of a sixteen-channel fader instrument: apps that shape control
voltages and MIDI, the clock that drives them, the layout that places them on
channels, and the protocol that configures them.

`src/` is the library. Every function in it has a contract that Verus proves.

- `apps/` holds one module for each app, written as a state machine: an event
  comes in (a clock tick, a millisecond, a fader, a button) and a list of acts
  comes out (lights, notes, voltages, settings to save). Random numbers,
  quantized pitches and wave tables are arguments, so a contract speaks of every
  value they can have. `four_chan`, `led_fx`, `led_spectrum`, `morph`,
  `ornament`, `rng` and `scale` hold what several apps share.
- `tasks/` holds the clock engine with its gatekeeper and metronome, the
  configuration protocol with the V/Oct calibration, the beacon of a dead core,
  the identity of the USB device and the frequency meter.
- `layout.rs` reconciles the apps that run with those that are wanted,
  `usb_midi.rs` builds the descriptors of the MIDI class, and `panel.rs` holds
  the vocabulary that all of them share.
- `bounded.rs` declares the fixed-capacity collections of `heapless` and the
  ports of `max11300`. Their contracts are the only ones that are not proved.

`tests/` runs the library on concrete values. `app/` is the firmware around it:
event loops, hardware access, stored settings and floating-point arithmetic.
