# marketplace

The verified core of a contribution marketplace, written in Verus.

`src/` is the library; every function in it is verified:

- `decimal`, `amount`: decimal numbers (their arithmetic done by `rust_decimal`) and money
  amounts in a currency;
- `uuid`, `ids`, `parsed_url`, `json`: identifiers, URLs (parsed by `url`) and JSON values;
- `events`: what projects, contributions and payments emit;
- `event_store`: the store that appends each event once, by its deduplication id;
- `payment_request`: the event that records a payment request;
- `payment_projector`, `repositories`, `projections`, `github`: read models, the
  repositories they are written through, and the projectors that keep them up to date;
- `refresher`: replaying an aggregate's events to every projector, as a state machine;
- `webhook`: where events are forwarded and in what shape;
- `caller`: who calls the API;
- `action_queue`, `accept_application`: the contributions feeder's first-in first-out
  queue of on-chain actions, and the use case of accepting an application.

`app/` holds what runs around it: JSON serialization with `serde`, HTTP calls with
`reqwest`, asynchronous listeners, and the code generator for hex-string wrapper types.
`tests/` exercises the library on concrete values.
