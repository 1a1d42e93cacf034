# session_based_authentication

The logic of a small newsletter service, verified with Verus.

- `src/domain/`: subscriber names and emails with the rules they pass, and
  the new subscriber built from a subscription form.
- `src/routes/subscriptions.rs`: the subscription workflow as a sequence of
  steps with its laws, subscription tokens, the confirmation email, the row
  stored for a new subscriber and error reports.
- `src/routes/newsletters.rs`: the delivery of a newsletter issue to the
  confirmed subscribers, step by step, with its laws.
- `src/startup.rs`: the listening address and the base URL.
- `app/`: the HTTP server (actix-web), the database (sqlx), the email client
  (reqwest) and the configuration, which carry out what the library decides.
- `tests/`: tests of the library on concrete values.
