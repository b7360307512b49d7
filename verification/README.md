# ucx_sys

Bindings for the UCP API of UCX (Unified Communication X), split in two:

- `src/` is the verified library. It holds the decisions the bindings take,
  with contracts proved by Verus: decoding UCX status codes and status
  pointers, the parameter builders of contexts, workers, endpoints, memory
  registration, listeners and requests, reading back query results, framing
  packed remote keys, the bytes of C socket addresses (written and read
  back, in the host's family numbers and byte order), the operands of remote atomics, datatype descriptors, and the
  bounded waits on outstanding requests. Handles are carried as plain
  addresses; everything UCX reports reaches the library as plain values.
- `app/` makes the C calls into UCX and owns the resources (contexts, workers,
  endpoints, memory handles, remote keys, listeners), releasing them when
  dropped. Each wrapper hands UCX's answers to the library and acts on the
  library's decision.

`tests/` exercises the library on concrete values.

The public proof functions in `src/` state the laws the library keeps, for
example that reading back a framed remote key gives the payload that was
framed, that an error status encoded as a status pointer decodes to itself,
that the request builder never sets both completion modes, that a socket
address read back from its bytes gives its fields again, and what a whole
bounded wait on a request ends in after any run of completion checks.
