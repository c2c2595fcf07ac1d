# MAS Finance

A personal-finance web application (incomes, expenses, recurring expenses,
credits, projects with payment plans, and important documents), whose
logic is a library verified with Verus.

## Layout

- `src/` — the verified library.
  - `dinero` — decimal amounts as `rust_decimal` holds them, their sums,
    comparisons and text.
  - `texto` — the text operations the rest relies on (search, trimming,
    splitting, integer reading and writing, ordering).
  - `tiempo` — the clock.
  - `domain` — the entities and their rules (payments, projects, users,
    files, and the enumerations with their names).
  - `application` — the data of the use cases and the decisions of the
    services: budgets, payment amounts, recurring expenses, registration
    and login, storage keys.
  - `presentation` — what the pages, the JSON API and the session guards
    compute: the dashboard, the forms, the redirects, money formatting.
  - `shared` — the configuration of each environment.
  - `infrastructure` — file URLs in the object storage and paging.
- `tests/` — tests of the library on concrete values.
- `app/` — the server: environment, PostgreSQL repositories, object
  storage, sessions, HTML and JSON routes.
