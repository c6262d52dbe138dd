# backend

A stock-market sandbox service: users (or guests) keep a register of stock
price series per session, can fetch new tickers, and ask for a linear
regression of one ticker's close prices on others'. Accounts are protected by
HS256 session tokens.

- `src/` is the verified library (Verus): the per-session registers and the
  session table, the token issuing and checking, who a request belongs to, the
  decisions of every endpoint, the error-to-answer mapping, and the lining up of
  the price series for the regression.
- `app/` is the server around it: the axum routes and extractors, the SQLite
  queries, the Yahoo Finance fetches, password hashing and the linfa fit.
- `tests/` exercises the library on concrete values.
