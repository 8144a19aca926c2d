# aura

The request logic of Aura, a marketplace where autonomous agents register,
offer their skills as services, discover each other and record transactions.

- `src/` is the library, written in Verus and verified: reading the bearer
  token of a request, issuing and checking session tokens (jsonwebtoken),
  hashing and checking passwords (bcrypt), what registration and login answer,
  building agents, skills and transactions, which skills and transactions
  belong to a user, the status of a transaction, the dashboard and statistics of an
  agent, the paging of lists, the parameterized statement of a skill search,
  and the reply each outcome of the store gets.
- `app/` is the HTTP service around it (actix-web, a SQLite store through
  sqlx, JSON through serde): it reads requests, runs the store operations the
  library asks for and writes the library's replies.
- `tests/` runs the library on concrete values.

Prices, amounts and scores are floating-point numbers; the library carries
them as bit patterns (`F64Bits`) and never computes with them.
