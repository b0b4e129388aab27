# wayle

Desktop services for the Wayle shell: PulseAudio devices and streams, and
NetworkManager WiFi and wired devices.

The library (`src/`) holds the services' logic, verified with Verus:

- `pulse`: devices, streams, sample formats and channel volumes; the stores
  that the backend keeps up to date from PulseAudio's reports; the backend's
  decisions on subscription events and user commands; the reading of
  introspection records.
- `network`: device discovery, the monitoring decisions, WiFi connection
  profiles, hardware addresses and the IPv6 configuration.
- `keyed`, `text`: the keyed-collection model and the text helpers that both
  use.

`app/` holds what talks to the outside world: the PulseAudio main loop and
introspection calls, the D-Bus proxies, volumes as floating-point values,
error types with `Display`, and logging set-up.
