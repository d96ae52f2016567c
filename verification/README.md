# nautic

Telemetry link between a boat's radio slave and the shore services, written
in Verus.

- `src/` is the verified library: the big-endian fields and frames of the
  radio link (`wire`, `frame`), the master and slave packets (`packets`), the
  sensor names (`tagger`), the conversion of packets into telemetry
  (`service`, `telemetry`), the storage points (`influx`), and the state
  machines of the operator console (`pages`, `console`, `views`).
- `app/` holds the programs around it: the serial port and GPIO, the AMQP
  broker, InfluxDB, the YAML and JSON files, and the command line.
- `tests/` runs the library on concrete values.
