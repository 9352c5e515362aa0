# Enchiridion

The decision logic of the Enchiridion announcement service (buildings,
floors, devices, announcements and the two-party approval of change
requests), written in Verus and verified.

- `src/` is the library. Each module states what its functions do in
  `requires`/`ensures` over spec functions, and the laws of the service
  (pagination, approval, tokens, device credentials, sessions, livestream
  buckets) are public proof functions next to the code they speak of.
  The calls into chrono, argon2, jwt/hmac, regex, lipsum, rand and
  validator sit behind small trusted wrappers in `src/time.rs`,
  `src/credentials.rs` and `src/text.rs`, each documented with what its
  contract claims.
- `tests/` runs the library with the real outside crates.
- `app/` is the process around it: configuration from the environment,
  the storage and mail adapters, the decoding and staging of the
  announcement form's multipart parts, the loops that carry out the
  scheduled passes and the writes of a recorded decision (over a backend
  trait), and the JSON forms of library values.
