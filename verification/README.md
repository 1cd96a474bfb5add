# phi_domain

The domain layer of the phi governance plane, written in Verus: every
public function carries a contract and is proved against it, and the
library's laws are public proof functions.

Layout:

- `src/model/` — the graph model: identifiers, fundamentals, composites,
  node and edge types, and the principal/resource roles of identifiers.
- `src/consents/` — the consent lifecycle: the legal-transition table, the
  transition functions and the minters of requested consents.
- `src/events/` — domain events, the drain decision of the event bus, and
  the decisions of the event listeners (template grant fires, memory
  extraction, agent catalog).
- `src/time.rs` — UTC instants; `src/audit.rs`, `src/permissions.rs` —
  the audit and permission vocabularies the model refers to.
- `app/` — the async event bus, the handlers that run the memory-extraction
  and agent-catalog listeners step by step, the resolver interfaces, the
  JSON wire form of domain events, and the records that hold
  floating-point values.
- `tests/` — executable tests of the library.
