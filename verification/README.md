# j1_accel

Verified core of the J1 accelerometer board (STM32F4 + LIS302DL) and of the host
tool that reads its USB telemetry.

* `src/lis302dl.rs` – LIS302DL register protocol as a state machine: the SPI frames
  for initialisation (WHO_AM_I, CTRL_REG1) and for reading the three output registers,
  and the CTRL_REG1 value for a configuration.
* `src/wire.rs` – Protobuf varint/fixed32 wire format, the `micropb` encoder and
  decoder primitives it is read and written with, and the 64-byte `heapless` packet
  buffer.
* `src/telemetry.rs` – the `Accel` telemetry record
  (`int64 time = 1; optional float x_accel = 2; optional float y_accel = 3; optional float z_accel = 4;`),
  its length-delimited frame, and the host-side decoder. Proved: every frame fits the
  packet buffer, and decoding a frame gives back the record that was encoded.
* `src/rtc.rs` – milliseconds since boot, computed by `chrono` from two calendar
  readings; outside leap seconds it never runs backwards, and differences of two
  results are the time between the readings.
* `src/tasks.rs` – state of the heartbeat and button tasks, the USB device identity,
  and the stream's reaction to a failed packet write.
* `src/messages.rs` – message types of the RPC interface.

`app/` holds the host reader (`main.rs`) and the async glue that drives the library
from `embassy` tasks over `embedded-hal-async` SPI, GPIO and `embassy-usb`.
