# sanctum_ai

Client core for the SanctumAI credential vault, verified with Verus.

- `src/` is the verified library: length-prefixed framing (`protocol`),
  request numbering and response handling (`client`), the Ed25519
  challenge-response exchange as a state machine (`auth`), the vault's error
  vocabulary (`error`), the message types (`types`), decimal rendering
  (`text`), and the trusted declarations and wrappers around `serde_json`,
  `hex` and `ed25519-dalek` (`outside`).
- `app/` is the async client on tokio: sockets, JSON encoding of the
  messages with serde, and the loop that drives the library's decisions.
- `tests/` exercises the library on concrete values.
