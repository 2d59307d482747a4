# roya_routes

The request logic of the Roya back office, written in Verus: what its web and JSON
routes decide, build and refuse, apart from the network, the database and the
templates.

- `src/` is the library. Every function in it has a contract that Verus proves.
  - `documents`, `drawer`, `records`, `payments`, `movements`, `receipts`: the
    cross-department documents index and the drawer that opens each document.
  - `customers`: the receivable of each customer, the forms that change them, and
    collections.
  - `prices`, `refusal`, `localization`: how a product's prices are read, and how a
    refused price is worded.
  - `product_filter`, `product_forms`, `product_detail`, `inventory`, `html`: the
    products screen and the inventory API.
  - `identity`, `access`, `permission`: signing in and out, the password change, and
    which permission each operation asks for.
  - `accounts`, `currency`, `actors`, `answer`, `error`, `start`: the smaller pieces.
  - `text`, `amount`, `date`, `views`: text, decimal numbers and dates.
- `tests/` runs the library on concrete values.
- `app/` is the HTTP side: axum routers and handlers, the SQL that resolves user
  names, and the traits behind which the departments, the pages and the language of
  the business stand.

What is trusted and not proved: `String::push` of the standard library; reading,
printing and comparing a `rust_decimal` number (`src/amount.rs`); reading and printing
a `chrono` date (`src/date.rs`). Each of these items says in its comment what is
claimed of the function behind it.
