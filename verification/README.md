# common_logic

The control logic of a small DEVS co-simulation: an orchestrator turns operator
commands (`TEMP ON`/`OFF`, `HUM ON`/`OFF`, `LED ON`/`OFF`) into enable signals; two
sensor handlers poll a temperature and a humidity sensor periodically with a deadline;
an LED handler drives an LED and reports the confirmed state. Each model is a DEVS
atomic model written as a state machine (internal transition, external transition,
output, time advance) and verified with Verus. Simulated time is kept in whole
nanoseconds.

- `src/`: the verified library (models, command parsing, message routing, the
  stand-ins for devices used in simulation) and `src/laws.rs`, the properties that span
  several transitions.
- `tests/`: scenarios on concrete values.
- `app/`: the programs around the library, run by the xDEVS simulator: a real-time PC
  simulation (root `main.rs`, with `sim_models.rs`) and the ESP32-C6 firmware (root
  `esp_firmware.rs`, a `no_std` program for `riscv32imac-unknown-none-elf`). Both share
  `devs.rs`, the xDEVS components around the library's models.
