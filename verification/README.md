# com_api

Verified core of the Rust `mw::com` communication API (methods and fields over the LoLa
runtime, a mock runtime, and E2E Profile 4m protection), written in Verus.

- `src/` — the library; every function carries a contract that Verus proves.
  - `crc`, `bytes`, `e2e`: CRC-32/AUTOSAR and the Profile 4m header (`protect` / `check`).
  - `envelope`: the 16-byte E2E envelope around method arguments and results, and the
    protected caller / handler state.
  - `args_layout`: natural-alignment layout of method argument tuples in a flat buffer,
    writing and reading them back.
  - `method_call`: the caller-side call protocol as a state machine of actions and events.
  - `lola_method`, `field_publisher`: the LoLa method caller / handler, the zero-copy argument
    allocator, and the field publisher's get / set handler dispatch.
  - `typestate`: which producer members need a step before `offer()`, and the order of the
    validator's state parameters.
  - `mock_runtime`, `mock_sample`: the in-process mock runtime.
- `tests/` — ordinary Rust tests of the library.
- `app/` — code around the library that needs outside crates or I/O: the token generation of
  the `TypeStateValidator` derive (`syn` / `quote`) and a demo of E2E protection.
