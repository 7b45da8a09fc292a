# lelof1sv3

Verified protocol logic for the LELO F1s V3 Bluetooth toy.

- `src/protocol.rs`: endpoints, sensor types, readings, errors and the
  hardware commands the protocol asks for.
- `src/decode.rs`: decoding of pressure, depth, accelerometer and button
  frames.
- `src/device.rs`: the protocol handler (`LeloF1sV3`): vibration commands,
  sensor reads, subscription bookkeeping and notification decoding.
- `src/auth.rs`: the authorisation handshake (`LeloF1sV3Initializer`) as a
  state machine that returns the next action for each event.
- `app/lib.rs`: tokio plumbing that performs the actions over a Bluetooth
  link and fans sensor readings out to listeners.

Every function in `src/` is verified with Verus against its contract; the
laws of the protocol are proof functions next to the code they are about.
