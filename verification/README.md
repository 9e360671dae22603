# dongle_ctl

The logic behind a command-line tool for USB power dongles, verified with Verus.

A dongle is a USB hub with a bridge, through which power, data lines and pins are
driven, and a serial adapter, whose serial number identifies the dongle.

- `src/` is the library. It finds the dongles among enumerated devices
  (`discovery`), chooses one by serial or USB path (`selection`, `startup`), and
  says what a command reads, writes and prints (`script`), one action at a time
  (`session`). What commands leave behind is stated and proved in `effects`, what
  holds of USB paths in `paths`.
- `app/` is the program around it: arguments, enumeration, and the hardware
  abstraction layer that carries the actions out.
- `tests/` runs the library on concrete values.

The library relies on `regex` for recognising USB paths, on `colored` for
coloured text, and on two functions of the standard library. What it takes for
granted of them stands in the contracts of the functions that call them, in
`pattern`, `style` and `text`.
