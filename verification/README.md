# korean

A two-beolsik Hangul input method for Linux (IBus), with its composition
engine, key handling and desktop setup written in Verus and proved against
their specifications.

## Layout

- `src/` — the verified library
  - `syllable.rs`, `compose.rs`, `keymap_2beolsik.rs`: Unicode syllable
    composition, compound jamo, and the two-beolsik keyboard layout
  - `composer.rs`, `backspace.rs`: the composer that turns key presses into
    preedit and committed text
  - `state.rs`: input modes and Caps Lock tap/hold transitions
  - `keys.rs`, `config.rs`: IBus key values and masks; render and delete modes
  - `engine.rs`: the IBus engine as a state machine from key events to
    requests for the framework (commit, preedit, forward, delete)
  - `sources.rs`: reading and writing the GNOME input-source list
  - `setup.rs`, `diagnose.rs`: `korean setup`, `stop`, `doctor` and `status`
    as request/reply flows, and what they print
  - `cli.rs`: option parsing and the `simulate` transcript
  - `text.rs`: string helpers with specifications
- `app/` — the programs around the library: the command-line tool, the IBus
  engine's C interface, and the Caps Lock daemon. They read the environment,
  run commands and talk to IBus, handing the library plain values.
- `tests/` — tests of the library on concrete inputs.

Each public function states its result in `ensures`; the laws of the library
(for example that a backspace undoes a key, that Korean mode sends only Hangul
text, or that removing the engine from the source list undoes adding it) are
public proof functions next to the code they are about.
