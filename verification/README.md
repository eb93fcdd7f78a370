# pttd

A per-user push-to-talk daemon for the default PipeWire audio source. It starts muted, unmutes while
the push-to-talk key is held on any configured device, and mutes when the key is released. A second
key toggles between push-to-talk and an open microphone.

Every decision of the daemon is made by a library that is verified with Verus. The program around it
performs what the library asks for and hands back what came of it.

## Layout

`src/` is the library.

- `state`: the push-to-talk policy, from key events to audio states. `policy_laws` proves what holds
  of it over any run of events: no hold counts during a mode transition, only a fresh press on a
  readable device talks, losing the last hold mutes, keys found down have to be released first.
- `controller`: publishes audio requests and runs the barriers of mode transitions.
  `controller_laws` proves that the latest request is the one that mode and keys call for, and that
  a barrier only ever waits for readable devices.
- `input`: what an input event means, and who may read which node. `reader`: reading one device
  through losses and recoveries. `reader_laws` proves, among others, that nothing is told twice
  across a recovery and that a loss is reported before a retry.
- `audio`, `wpctl`, `command`, `worker`: audio requests, the `wpctl` command lines and their output,
  one child process at a time, and the worker that applies the latest request first. `worker_laws`
  proves that acknowledgements increase, that muting is never cut short, and that nothing is unmuted
  that was not asked for.
- `supervision`, `daemon`: how tasks end, and the life of the daemon from startup to shutdown.
  `daemon_laws` proves that readers wait for the muted startup, and that the daemon ends well only
  with its last request acknowledged.
- `config`: where the configuration is found and when it is accepted.
- `fault`, `numeral`, `path`, `text`: failures, numerals, paths and texts as plain values.

`app/` is the program: the command line, files, child processes, input devices, channels and time.

`tests/` runs the library on concrete values.

## Configuration

```toml
[input]
devices = ["/dev/input/pttd-mouse", "/dev/input/pttd-keyboard"]
ptt_key = "KEY_F9"
toggle_key = "KEY_F10"
```

It is read from the path given by `--config`, or else from `pttd/config.toml` below
`XDG_CONFIG_HOME`, or else from `.config/pttd/config.toml` below `HOME`.

## What is trusted

Three calls into other code are taken at their word, each behind a function that says what it claims:
whether bytes are UTF-8 and how that fails (`wpctl`), which code a symbolic key name has (`config`),
and whether a key is in the set that the kernel reports (`input`).
