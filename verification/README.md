# quantum_sdk

Client SDK for the Quantum AI API.

- `src/` is the library, verified with Verus: the request and response
  types, and every decision the client makes on the way to and from the
  wire: request paths and query strings, header checks, the replay policy,
  response metadata, error bodies, the server-sent event line machinery and
  what each line becomes, the realtime frames, and dialogue scripts.
- `app/` is the transport around it: the `reqwest` HTTP client, the event
  streams, the realtime WebSocket, and the serde forms of the types.
- `tests/` exercises the library.
