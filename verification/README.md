# usbarmory

Board support for the USB armory mkII (i.MX6UL/ULZ), split into a verified
library and a thin hardware layer.

- `src/` is the library, verified with Verus. It holds the decisions the
  drivers take and the register values that carry them: the USB device
  controller's bus state machine and its queue-head and transfer-descriptor
  encodings, the eMMC command table, card status and CSD decoding, the MBR
  partition table and the block-device windows it gives, the block storage
  that littlefs runs on, the DCP command words together with the SHA-256
  block splitting and the channel claims, the real time counter's durations,
  the RNG status decoding, and the exclusive handles of the LEDs and the
  serial port. Contracts are stated over spec functions and views; the
  `law_*` proof functions state the properties that span several operations.
- `tests/` exercises the library on concrete values.
- `app/` is the hardware side: register access through the peripheral access
  crate, the wait loops, the statics that guard the singletons and the impls
  of outside traits (`UsbBus`, `BlockCipher`, the `digest` traits, littlefs'
  `Storage`). It keeps the fixed bring-up writes of the clock, PHY and
  controller reset sequences; for the rest it hands register values to the
  library and writes back what the library returns, and its timed waits
  take their give-up decision from the library's `wait_step`.
