# rushomon

The request logic of the Rushomon URL shortener's API, written in Verus: the
rules, parsers and decision machines that the HTTP handlers run, each with a
contract that Verus proves.

## Layout

- `src/` — the verified library.
  - `text`, `query`, `clock`, `secrets`, `tier`, `settings`: shared pieces
    (character-level string work, query strings, chrono calls, constant-time
    comparison, tiers and their limits, the instance settings table).
  - `links`: creating, importing, listing, updating, exporting links and
    planning redirects; `create_flow` and `import_flow` are the step
    machines of creating a link and importing a row, `record` the written
    link and its redirect entry.
  - `billing`: the payment provider's webhook and the internal subscription
    update as step machines, checkout and portal decisions, the monthly quota.
  - `orgs` (with `delete_flow`, the step machine of deleting an
    organization), `admin` (with `block_flow`, that of blocking a
    destination), `auth`, `keys`, `domains`, `reports`, `notifications`,
    `analytics`, `router`: the decisions of the remaining endpoints.
- `tests/` — tests that run the compiled library.
- `app/` — plain Rust around the library: JSON forms of its types, HTTP
  replies, reading the clock, and the loops that run the machines against
  the deployment's stores (traits it implements).

## Working with the machines

Handlers that alternate database work with decisions are split: the library
hands out one action at a time (such as `WebhookAction` or `CreateAction`),
the caller performs it and feeds the result back (`StepInput`,
`CreateInput`). Laws about whole runs, such as that every
webhook is answered within a bounded number of steps, are proof functions next
to the machine.
