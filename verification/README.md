# raxc

Verified models of the RAXC on-chain audit trail and the text builders of its
RAG analysis backend, written in Verus.

- `src/primitives.rs` — 256-bit words, addresses and 32-byte digests as plain
  values; keccak-256 and the 256-bit ring operations are calls into
  `alloy_primitives`.
- `src/host.rs` — the call context (caller, block time, value) a contract runs in.
- `src/agent_memory.rs` — the agent-memory contract: minting agent identities,
  appending memory entries (owner or agent wallet only), reading and verifying
  them; with the storage-key derivation and the laws of the contract.
- `src/audit_report.rs` — the audit-report contract: creating audit tasks and
  finalising each once (an explicit flag, whatever the block time), reading
  and verifying reports; with its laws over any sequence of calls.
- `src/counter.rs` — the counter contract with wrapping arithmetic.
- `src/text.rs`, `src/rag.rs`, `src/reasoning.rs`, `src/markdown.rs` — the
  retrieval context, the analysis prompt, the quoted reasoning and the
  markdown report, each specified character by character.
- `src/concepts.rs` — the concept-extraction prompt and the reading of the
  model's reply (JSON parsing through `serde_json`) into the text that the
  hash embedding digests.
- `app/` — alloy type conversions, ABI encoding of the contract logs, and the
  network, environment, clock and floating-point side of the analysis.
