# bincode-grpc

Code generation for gRPC services whose messages are encoded with bincode.

- `src/` is the verified library. `model` reads a service trait (its RPC
  methods, receivers, parameters and result types) and checks that every
  method can be served; `names`, `rpc` and `service` write the code that
  `#[service]` generates; `server` writes the code that `#[server]`
  generates; `codec` holds the length checks of the bincode adapters;
  `laws` states and proves what holds across these functions.
- `app/` is the thin layer around it: it reads Rust tokens with `syn` into
  the library's model, parses the generated text back into tokens, and
  implements tonic's and bincode's traits for the codec.
- `tests/` runs the library on concrete services.
