//! Verified core of a commit-message assistant.
//!
//! The library holds the logic that decides what the tool does: splitting an
//! oversized staged diff into byte windows, building the per-window summary
//! prompts, assembling the final prompt from a template, formatting recent
//! commit history, planning an unsigned or signed commit, and driving the
//! interactive generate/review session as an explicit state machine.
//!
//! Everything that touches the outside world — the repository, the model
//! backends, the signing subprocess, the terminal — lives in the unverified
//! shell around this crate, which hands plain byte values in and carries the
//! machine's requested actions out.

pub mod chunking;
pub mod commit;
pub mod history;
pub mod provider;
pub mod session;
pub mod summarize;
pub mod template;
pub mod text;
