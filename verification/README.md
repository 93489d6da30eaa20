# WebPad

WebPad turns the browser of a phone into a gamepad of a Windows machine. The machine serves a
page that shows the pad; the page talks to the server over a WebSocket; the server moves a
virtual Xbox 360 controller.

`src/` is the library, verified with Verus:

- `password`: password hashes, Argon2id and the older SHA-256 ones.
- `auth`: sessions by token, and the waiting times of addresses after failures.
- `config`: the settings.
- `protocol`: the messages.
- `gamepad`: the state of a pad, and which controllers exist.
- `upnp`: the port mapping.
- `tls`: certificates and keys.
- `web`: connection limits, origins, the page, and what happens on a connection. What holds of
  the server as a whole stands in `web/laws.rs`.
- `clock`, `net`, `text`: points in time, addresses, and texts.

`app/` is the program around it: the command line, files, sockets, TLS, JSON, the gateway and
the ViGEmBus driver.

What the library takes for granted of the crates it calls stands in the doc comments of the
functions that are marked `external_body`, and of the `assume_specification` items.
