# boluo

The core of the Boluo chat server (spaces, channels, messages, media and live
events), written in Verus: each function of `src/` carries a contract that Verus
proves.

- `src/`: the verified library. Sessions and CSRF tokens, validation, the rules of
  who may do what, message moves, the event cache of each mailbox, uploads, routing,
  errors and their answers. Calls into outside crates (`regex`, `base64`, `ring`,
  `blake3`, `percent-encoding`, `mime`, `chrono`, `crc32fast`, `futures`) go through
  small trusted wrappers whose contracts say what the crates document.
- `tests/`: tests on concrete values.
- `app/`: the HTTP server around the library: configuration, the clock, files,
  in-process stores and the JSON form of requests and answers.
