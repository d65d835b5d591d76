# lau_construct_cli

Data types and ASCII panel rendering for a PLATO construct command line:
status dashboards, room inspection, deployment and debug tracing.

## Layout

- `src/` — the verified library.
  - `text.rs`: padding, decimal numbers, progress cells, `str::lines`-style
    splitting and panel embedding, each specified over `Seq<char>`.
  - `status.rs`: ensign states, room/port/provider/conservation panels and the
    construct dashboard.
  - `inspect.rs`: inspection types and `ConstructInspector` (one inspection per
    room, an offline default for unknown rooms).
  - `deploy.rs`: manifests, deployments and `ConstructDeployer`.
  - `debug.rs`: message traces and the conservation report.
  - `error.rs`: `DeployError` and its messages.
  - `laws.rs`: properties that relate several operations.
  - `bits.rs`: equality of `f64` bit patterns as `==` on `f64` decides it.
  - `equality.rs`: element-wise equality of vectors.
- `app/` — serializable copies of the types with `f64` fields, their
  conversions to and from the library's types, the renderings that format
  floating-point values, `Display`/`Error` for deploy errors, and the
  inspector, deployer and debug tools over those types.
- `tests/` — tests of the library.

Real-valued quantities are held in the library as the bit patterns of `f64`
values (`f64::to_bits`): the library carries them and compares them as `==`
on `f64` does (signed zeros equal, NaN unequal), but never computes with them. Where a panel shows such a value, its `render_with` method takes the
value already written as text.
