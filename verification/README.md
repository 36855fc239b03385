# basis_core

The core of Basis: the models of an economic network of users, companies,
members, processes and resources, the events that move disaggregate costs
(labor, labor hours, resources, currency and credits) between them, and the
transactions that check who may do what and answer with the modifications to
make. The functions under `src/` are verified with Verus against their
contracts, except a few trusted wrappers around outside crates, whose
contracts Verus takes on trust: the decimal operations of `rust_decimal` in
`src/num.rs` and the random ids of `uuid` in `src/models/ids.rs`.

Layout:

- `src/num.rs`, `src/cost_map.rs`, `src/costs.rs`: decimal numbers (backed by
  `rust_decimal`), maps of costs by key, and `Costs` with their arithmetic and
  the laws of moving costs.
- `src/access.rs`: roles and permissions.
- `src/models/`: the models, their ids, and `Event::process`, which turns an
  economic event into modifications.
- `src/transactions/`: the operations on the models, each checking access and
  answering with modifications.
- `src/system/`: credit conversion, votes and UBI.
- `src/laws.rs`: the laws that relate several functions, as proof functions.
- `app/`: the parts that stay outside the verified library: serde and JSON,
  `chrono` time, `om2` units, `thiserror` errors, and the floating-point cost
  tallies and labor hours.
- `tests/`: tests run against the compiled library.
