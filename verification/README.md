# constance (verified core)

Pieces of the Constance RTOS whose behaviour is stated in Verus contracts
and proved:

- `src/time.rs` — `Time` (a microsecond timestamp) and `Duration`, with
  conversions and the spans between timestamps.
- `src/task_cfg.rs` — task definitions: the `CfgTaskBuilder` builder, the
  hunk allocator that gives tasks their stacks, and the initial task control
  block (`CfgBuilderTask::to_state`).
- `src/port_arm_m.rs` — the decisions of the Arm-M port: how CPU Lock is
  entered, left and detected, and the initial context of a task.
- `src/cssidr.rs` — the fields of the Cache Size ID Register.

`app/` holds the hardware side of the port: register access through
`cortex-m`, the context-switch handlers written in assembly, and the
floating-point conversions of `Time`. `tests/` exercises the library.
