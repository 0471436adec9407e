# imserver

The decision core of a QUIC instant-message server, verified with Verus.

- `src/` is the library. `connservice` holds the three pools of the server (live
  sessions by client and device, the devices known of each client with their
  connection states, and the client key of each peer address) with their abstract
  view `PoolView`. The modules `login`, `logout`, `pingpong`, `procommand`,
  `propingpong`, `promessage`, `recefromclient`, `send`, `message`, `sendtoclient`,
  `mqserver`, `group` and `imserver` take the server's decisions: each turns a pool
  and a received datagram (or a queued event) into the next pool and a list of
  `ServerAction`s, and its contract states both exactly. `laws` proves the
  properties that span several operations.
- `app/` is the network side: the QUIC accept loops, the message queue, the group
  message processes and the watchdog. It reads the wire datagrams, calls the
  library, and performs the actions it returns.
- `tests/` runs the library on concrete values.
