# backend

A series tracking and recommendation service: users review TV series, an LLM
suggests new ones from their reviews, and suggestions are matched against the
TMDB catalogue and stored.

- `src/` is the verified library (Verus). It holds the data model, the error
  type and how each failure is answered, the TMDB requests, the LLM prompt and
  the retrying conversation that parses the model's answer, the database
  decisions (registration, login, the recommendation transaction), and every
  HTTP handler's decisions as functions or small state machines whose steps
  the driver performs.
- `app/` is the server around it: axum routes, sqlx queries, reqwest calls,
  serde and OpenAPI forms of the bodies. It performs the steps the library
  asks for and hands the results back.
- `tests/` exercises the library on concrete values.
