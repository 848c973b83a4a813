# qhyccd_alpaca_core

The driver logic of an ASCOM Alpaca server for QHYCCD cameras and filter
wheels, written in Verus and proved against its contracts.

The library (`src/`) holds what the driver decides between device calls:

- `error`: the Alpaca errors the driver reports, with their numbers and
  messages, and the connection guard every operation starts with.
- `filter_wheel`: the filter wheel's cached state, the connection sequence
  (open, count the slots, read the position), Position, SetPosition, Names
  and FocusOffsets.
- `camera`: the camera's cached state; `geometry` (sensor size, region of
  interest, binning and the rescaling of the region when the binning
  changes), `sensor` (sensor type, Bayer offsets, capability queries),
  `readout` (readout modes), `exposure` (starting and following an exposure),
  `image` (turning a raw 8- or 16-bit frame into a column-ordered image),
  `connect` (the connection sequence as a state machine) and `laws`.
- `log_level`: the choice of the log level from the command line and the
  environment.

Functions that need the device take its replies as plain values
(`Reply<T>`); multi-step operations hand back the next device call to make.
`app/` is the server itself: it performs those calls through the QHYCCD SDK,
runs exposures in the background, serves the devices over Alpaca, and
computes the properties the SDK reports as floating-point values (gain,
offset, temperatures, cooler power, exposure limits, pixel sizes).
