//! Verified models of the RAXC on-chain audit trail contracts (agent memory,
//! audit reports, counter) and the text builders of the RAG analysis backend.
pub mod agent_memory;
pub mod concepts;
pub mod audit_report;
pub mod counter;
pub mod host;
pub mod markdown;
pub mod primitives;
pub mod rag;
pub mod reasoning;
pub mod text;
