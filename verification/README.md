# solar_modbus

A bridge between a PV inverter and a heat pump over Modbus TCP, with its
decisions verified by Verus.

- `src/` is the verified library:
  - `session.rs`: what one robust Modbus command does when the transport fails
    (reconnect, retry after a pause, give up with the last error), as a state
    machine that the caller drives, with the laws that bound it and fix its result;
  - `retry.rs`: the fixed-interval retry budgets;
  - `registers.rs`: the inverter's and the heat pump's register maps and the
    decoding of register words;
  - `words.rs`: 16- and 32-bit register encodings and register text;
  - `heatpump.rs`: what the heat pump is told (PV power, surplus) and where;
  - `stream.rs`: merging a chunk of samples for the live event stream.
- `app/` is the program: the Modbus connection and its async driver, the
  database, the HTTP event stream, and the floating-point scaling.
- `tests/` exercises the library on concrete values.
