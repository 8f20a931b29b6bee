# interledger

The core of an Interledger node, verified with Verus.

- `src/service.rs`: requests, the traits of services and stores, and the two
  ways to make a service out of a function: on its own, or wrapped around
  another service.
- `src/ildcp.rs`: the exchange in which a node asks its peer for an address and
  an asset: the request, the response, and the steps in between.
- `src/oer.rs`: strings of bytes in the Octet Encoding Rules.
- `src/packet.rs`, `src/username.rs`, `src/errors.rs`: the data these work on.
- `src/external.rs`: everything that is assumed of other crates and of the
  standard library.
- `app/`: the asynchronous code around the library.

Functions named `law_...` state what holds across several functions.
