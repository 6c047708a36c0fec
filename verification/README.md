# ascot

The verified core of a small framework for IoT devices and the controllers
that talk to them: route parameters and their values, the routing of a
device's HTTP requests, responses and errors, events, sensor protocols, and
the checks a controller makes before it sends a request.

- `src/` is the library, written and proved with Verus. Every public
  function states what it returns in its contract; `src/laws.rs` holds the
  properties that span several calls.
- `tests/` runs the library on concrete values.
- `app/` holds what Verus does not see: serialization copies of the library
  types, the HTTP glue of a device server, sensor drivers over the
  `embedded-hal` traits, and the text forms of errors.
