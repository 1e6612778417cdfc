# arducam-legacy

Driver logic for legacy Arducam SPI cameras (ArduCAM Mini 2MP Plus with an
OV2640 sensor, and the 5MP boards with an OV5642 sensor), verified with Verus.

Every camera operation (`init`, `start_capture`, `get_fifo_length`, ...) is a
`bus::Procedure`: a state machine that hands out one bus action at a time
(`next_action`) and takes back what the bus answered (`answer`). The contracts
state exactly which frames each operation sends, in which order, how a later
frame depends on an earlier read, what the answers mean, and that the first bus
error ends the operation with that error.

Layout:

- `src/bus.rs`: bus actions, steps, the procedure state machine and its laws.
- `src/camera.rs`: the sensor (I2C, 16-bit registers) and the Arduchip (SPI)
  frame builders, and the `BlockingCamera` trait.
- `src/ov2640.rs`: the 2MP camera `Arducam`.
- `src/ov5642.rs`: the 5MP camera `Arducam5MP`.
- `src/image_sensor.rs`: orientation commands.
- `app/`: runs procedures on `embedded-hal` 1.0 buses, blocking and async,
  with one entry point per camera operation, and the error type with its
  `Display` impl.
- `tests/`: tests of every operation on concrete replies.

The sensor register tables (`Ov2640Tables`, `Ov5642Tables`) are data that the
caller supplies; each row is sent verbatim.
