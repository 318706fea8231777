# http_problem

Classifies the failures of a completion service into HTTP problems: a category,
a status, a message that is safe to show to a client, and a diagnostic for the
log. The classification is verified with Verus.

- `src/` is the verified library. `problem.rs` holds the classification,
  `chain.rs` the errors that it reads, `event.rs` the stream events,
  `sanitized.rs` the model that classifies by status alone, `overload.rs` the
  configurable overload status, and `laws.rs` what holds of all of it.
- `app/` reads the environment, decodes JSON, and walks `std::error::Error`
  chains.
- `tests/` runs the library.
