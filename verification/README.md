# firebase_rest

Verified core of REST clients for Firebase Auth, Cloud Firestore and Stripe.

- `src/` (Verus): the request plans of each call (URLs, headers, bodies,
  form pairs), the reply decisions of a call (`exchange`: which body to read
  next, which error message results), the Firestore conversion from typed REST
  values to plain JSON (`firestore`, over the plain JSON value of `json`), and
  the decimal text and `i64` reading it needs (`text`).
- `app/`: the HTTP side with reqwest, the serde encodings of the payloads,
  and the typed decoding of Firestore documents with serde_json.
- `tests/`: tests of the library on concrete values.

Not included: the `GroundsTo` impls of `nexcore_lex_primitiva` for the
client types (their primitive composition). That crate is not available from
the crates.io registry, so neither `src/` nor `app/` can name its trait.
