# practical_rust_book

A small question-and-answer web service (warp, Postgres, an outside
profanity filter), with its logic verified by Verus.

- `src/` — the verified library: decimal text of integers, the service's
  errors and their texts, reading the pagination range from query
  parameters, reading the profanity filter's reply, the reply to a rejected
  request, and the decisions of the request handlers as flows (state, event)
  → (state, action), with the laws that they keep.
- `app/` — the server: routes, database queries, the HTTP request to the
  profanity filter, logging. Each handler runs a library flow and performs
  the actions it asks for.
- `tests/` — tests of the library on concrete values.
