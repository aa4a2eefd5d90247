//! Core of a log-collection agent: the event model, the normalization
//! stage (indicator extraction and metadata parsing), syslog wire
//! formatting, and the pure decision logic of the input adapters, the
//! output sinks and the orchestrator. The embedding program supplies the
//! asynchronous plumbing — sockets, files, queues, tasks and the
//! cancellation signal — and routes every decision through this crate.
pub mod clock;
pub mod config;
pub mod event;
pub mod inputs;
pub mod outputs;
pub mod pipeline;
pub mod runtime;
pub mod syslog;
pub mod text;
