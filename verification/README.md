# wow_net

The networking core of a vanilla World of Warcraft client, verified with Verus.

- `src/crypto`: the RC4-style stream cipher (`SARC4`) and the SHA-1 based byte
  generator (`Sha1Randx`) that Warden keys itself with.
- `src/warden`: the Warden cipher pair, the Warden packet format and the client side
  of the Warden exchange.
- `src/auth`: the login: credentials, the checks of the logon challenge, the SRP
  exchange through `wow_srp` and the resulting auth session.
- `src/world`: the decisions of the world handshake and of the world network loop,
  the world session and the decoding of world server headers.
- `app/`: the command-line client. It does the network I/O with `tokio` and the
  `wow_*_messages` crates and asks the library what to do at each step.
