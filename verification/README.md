# zero2prod

A newsletter subscription service. The library (`src/`) holds its logic, verified
with Verus:

- `config`: the runtime environment (`local`, `prod`) read case-insensitively from
  `APP_ENV`, the configuration files it selects, the settings and the Postgres
  connection options built from them;
- `domain`: validated subscriber names and e-mail addresses, and `NewSubscriber`;
- `routes`: what the health check and the subscription handler answer, and the row
  stored for a new subscriber.

`app/` is the server around it: configuration files, Postgres pool, actix-web routes.
