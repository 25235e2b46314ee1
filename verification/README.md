# terminal-groove

The sequencer and voice control of a groovebox with ten tracks, verified with
Verus, and the program around it that makes it heard.

- `src/model`: projects, patterns, events, parameters and their locks.
- `src/audio`: when steps sound and what they set sounding, the commands between
  the user interface and the audio callback, recordings, the choice of a device.
- `src/dsp`: the countable parts of the signal path, such as delay lines, tails,
  envelope stages, ramps and noise.
- `app`: floating-point signal processing, the output device, files and threads.

The library decides with integers; for every frame it hands `app` the cues that
the sound has to follow, and `app` reports back what its envelopes and tails
reached. The rings between the threads are those of `rtrb`; `src/audio/channel.rs`
states what is relied on.
