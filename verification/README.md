# lintx

Transmitter-side logic of the LinTx RC radio, verified with Verus.

- `src/` is the library: the STM32 serial frame parser, stick calibration and
  the mixer (AUX channel map, output profiles, throttle arm interlock), the
  five-way button mapper, USB HID gamepad reports and the gamepad
  controller's state machine, the UI pages and the on-screen keyboard.
  Every function has a contract; the laws that span functions are public
  proof functions next to the code they speak of.
- `app/` is a small command-line front end: it reads stick frames from the
  STM32 over a serial port, runs the mixer with the default model or the AUX
  map of a model file, and prints the sticks or drives the USB HID gamepad
  output through the library's controller and driver.
- `tests/` exercises the library on concrete values.
