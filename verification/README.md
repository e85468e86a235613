# natto64

A stateful NAT64 translator that lets IPv6 clients reach IPv4 servers over
TCP and UDP. On a host the packets are handled by eBPF traffic-control
classifiers, built separately from their own sources; this crate is not that
eBPF object and holds none of its maps. It is a library that states and
proves, as Verus contracts, the decisions those classifiers take (which
frames are translated, the bytes written, which counters move, how flow
mappings and sessions evolve), and the userspace policy handling around
them.

## Layout

- `src/` — the verified library
  - `wire`, `ones_complement`, `checksum`: big-endian fields and the Internet
    checksum, with the incremental-update law used when a packet changes
    address family
  - `headers`: IPv4 and IPv6 header builders and their read-back laws
  - `abi`: the records shared with the dataplane (configuration, counters,
    flow keys and values) and their helpers
  - `ipv6`, `verdict`: which frames each direction translates
  - `dataplane`: pool membership and selection, port allocation, session
    timers
  - `translate`: what is written to translate an accepted packet, the
    translated frame, and the law that a reply reaches the client that
    started the flow
  - `steps`, `accounting`: the decisions between table lookups and writes
    (mapping reuse and creation, reply lookup, session expiry) and the
    production counters each outcome moves
  - `config`, `builder`, `lifecycle`, `error`: the user-facing policy, its
    validation and lowering, and the configure-then-attach lifecycle
  - `metrics`: per-CPU counter aggregation
- `tests/` — tests on concrete values
- `app/` — loading and attaching the eBPF object with Aya, reading
  interface indices and counters
