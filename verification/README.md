# aegis

Operational memory for autonomous fleets: a simulated fleet (robots A, B, C)
where B localizes off A's beacon, three faults that all surface as "B loses
localization" (power cascade, interference, brownout), and a runtime that
diagnoses the root cause, simulates candidate fixes against a twin, and
applies the safest viable one.

Layout:

- `src/` is the verified library (Verus):
  - `rng.rs`: the SplitMix64 stream; every incident is a pure function of its seed.
  - `model.rs`: robots, faults, actions, symptoms and their labels.
  - `sim.rs`: the discrete engine (power half and motion half of a tick, the
    recovery actions, diagnosis, scoring, the closed-loop controller, per-scenario seeds).
  - `decision.rs`: the policy gate and the strategy arms.
  - `event.rs`: the append-only event log and the transitions it records.
  - `replay.rs`: B's status word on a replay timeline.
- `app/` is the runner: the floating-point physics (battery, localization,
  signal reading), the twin's noisy observation, the incident memory, the
  deciders, the experiment report and the replay tool.
- `tests/` exercises the library on concrete values.
