# fan_control_core

Fan control for one laptop model, the Predator PT315-53, and the qualification that comes before it:
which machine may be controlled at all, how a fan is calibrated, how a workload under Custom control
is held against a Firmware Auto baseline, which lifecycle cases must be survived, and how an hour of
supervised endurance ends.

- `src/` is the verified library. It decides; it touches neither files nor sockets, and holds no
  floating point. What a run asks of the machine stands behind traits. Its contract says which calls
  of those traits it made, in which order and with which arguments, and how its outcome follows from
  their answers.
- `tests/` runs the library against simulated machines.
- `app/` reads and writes JSON and TOML, publishes evidence, fits temperature slopes, turns samples
  into demands, and sends runtime events to the journal.

Where to start in `src/`: `evidence` and `evidence_rules` (what a record is and when it is valid),
`calibration_session`, `baseline`, `matched_workload`, `lifecycle_run`, `endurance` (the runs),
`authority` and `envelope` (which policy may be used), `arming` and `control_cycle` (control itself).
`trace` says what it means that calls were made one after another; each module whose name ends in
`_calls` holds the calls of one trait. `matched_steps`, `baseline_steps`, `endurance_fold` and
`lifecycle_fold` say, step by step, which call a run makes next and what it holds after the answer.
`handover_steps` and `cycle_steps` do so for `arming` and `control_cycle`, and say which answer ends a
handover or a cycle with which error; `moves` says what it means that a list of moves went through or
stopped at one of them.
Each trait of the machine has a history that only contracts speak of: an implementation is taken to add
each call, with its answer, to it.

Two things are trusted: that SHA-256 is a function of the bytes it is given (`hash`), and that the
debug form of a text is a function of the text (`endpoint_io`).
