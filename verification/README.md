# mobile_money_backend

A bookkeeping service for mobile-money users: pockets (wallets and bank
accounts), categories, transactions and their effect on pocket balances,
an inbox of payment notifications read by a language model, and sign-up,
sign-in and token handling.

## Layout

- `src/` is the verified library (Verus). Each operation of the service is
  a function from the values it looks up to what it decides: the
  transaction to store and the balance updates to make, the notification
  to keep, the claims of a token, the query of a listing. Laws that tie the
  operations together (taking back a transaction restores every balance,
  a transfer moves money without creating any, a rejected transaction
  changes nothing, the inbox lists open notifications newest first, a
  frame sent whole is read back, seeding twice inserts nothing) are proof
  functions next to the code they speak of.
- `tests/` runs the library on concrete values.
- `app/` is the HTTP service around it: configuration from the
  environment, the PostgreSQL repositories, the Ollama and Gemini clients,
  JSON Web Tokens and the routes. It looks up what a decision needs, asks
  the library, and carries out the answer.
