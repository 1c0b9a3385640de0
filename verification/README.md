# mars_data

Typed readings of NASA's Curiosity (MSL/REMS) weather feed, verified with Verus.

- `src/` is the verified library: the feed's categorical fields (wind direction,
  atmospheric opacity, UV index, pressure trend), the parse of one sol's record
  into a `WeatherSample`, the bounded season label, dates and clock times read
  with `chrono`, the configuration and its built-in defaults, and the decisions
  of the weather service (what `/health` and `/weather` answer, when the
  refresher fetches, publishes, waits and stops, and which mode the program runs).
- `app/` is the program around it: HTTP requests to the feed, the HTTP server,
  file reading, logging, JSON and TOML (de)serialisation, and the floating-point
  work (numeric readings, Earth–Mars light delay).
- `tests/` runs the library on concrete values.
