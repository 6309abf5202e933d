# collector_core

The core of a collector framework for process, network, filesystem and performance
monitoring: capability negotiation, topic routing with `+`/`#` wildcards, trigger
coordination (deduplication, rate limiting, priority queues, SQL conditions), task
distribution, load balancing and failover, result aggregation, pushdown task acceptance,
health aggregation, RPC request handling and shutdown coordination.

The library in `src/` is written in Verus: its functions carry `requires`/`ensures`
contracts that Verus proves (calls into outside crates and the clock go through a few
trusted wrappers), and the laws of the library (what wildcards match, when a
request is a duplicate, which lane a queue serves first, that a begun shutdown ends completed,
that a refused pushdown task leaves no trace, ...) are stated as proof functions named
`law_*`. Clocks are read through a few trusted helpers or passed in as `now` arguments.

`app/` holds the runtime around the library: tokio tasks and channels, sleeps, the RPC
transport interface, serde forms of the event types, and the floating-point metrics.
`tests/` exercises the library from the outside.
