# pete_runtime

The decision logic of the Pete robot runtime, written in Verus and proved
against its contracts.

- `src/` is the verified library: cockpit status parsing (status lines and JSON
  documents), the body sense, the brainstem clock and inertial sample checks,
  the pose adapter, reflexes, idle nudges, candidate scoring and action
  selection, stuck detection in the simulator, operator reign queueing,
  optional sensor health, scripted bump and start-up behaviours, charging
  verification, direct body impressions and the reading of experience logs.
  Quantities are fixed point: millimetres, milliradians, milliseconds and
  thousandths.
- `tests/` runs the library on concrete scenarios.
- `app/` is the host side: file and directory reading, the wall clock,
  logging, JSON records of sensor health, and the floating-point views of poses
  and inertial samples.

`serde_json` reads JSON status documents and `uuid` draws operator command
identifiers; both are called from the library through small trusted wrappers
whose contracts are stated next to them.
