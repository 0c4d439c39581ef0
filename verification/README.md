# lightr_server (verified core)

The domain logic of the lightr server, written in Verus and proved:

- `src/domain/user/credentials/email.rs`: the e-mail grammar (`local@host.tld`),
  its checker, and the law that the checker accepts exactly the assembled
  addresses.
- `src/domain/user/credentials/password.rs`: the password policy (8 to 64
  graphemes, a lowercase and an uppercase letter, a digit, a special character)
  and Argon2 hashing; an accepted password verifies against its own text.
- `src/domain/user/validation.rs`: the HTTP answer to a refused sign-up.
- `src/domain/user/model.rs`: the user record, its accessors and its equality.
- `src/http.rs`, `src/time.rs`, `src/text.rs`: actix-web responses, clock
  readings and characters of strings.

`app/` holds what Verus does not check: Postgres column types (sqlx) and the
serialisable copy of a user (serde).

Outside crates: `actix-web` builds the responses, `chrono` reads the clock,
`uuid` identifies users, `argon2` (with `rand_core` for its random salts)
hashes and verifies passwords, and `unicode-segmentation` counts the
graphemes that the length rule speaks of. `sqlx`, `serde` and `secrecy` are
used by `app/` and the tests.
