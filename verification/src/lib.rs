//! Answering a natural-language query from caller-supplied context snippets
//! with a local autoregressive language model: prompt assembly, and a
//! bounded, stateful token-generation loop with context-window management,
//! repetition suppression and stop-condition evaluation.
pub mod capability;
pub mod date;
pub mod engine;
pub mod errors;
pub mod prompt;
pub mod service;
pub mod text;
