# spindle_backend

Backend of a spinning-mill spindle monitor: it receives sensor readings over
MQTT, analyses spindle vibration, predicts yarn quality, raises alerts,
stores everything in ClickHouse and serves it over HTTP.

- `src/` is the verified library (Verus): the SQL text and request URLs sent
  to ClickHouse, the shaping of read answers, the calibrator's sample
  window, the alert rules and the decisions of the MQTT loops, each with a
  contract, and the laws that relate them.
- `app/` is the program around it: MQTT and HTTP I/O, the ClickHouse
  client, and the floating-point models (rotor dynamics, yarn quality
  regression, online calibration), which Verus does not take.
- `tests/` runs the library on concrete values.
