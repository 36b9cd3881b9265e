//! A network frame sniffer: device resolution, capture-handle setup, and the
//! producer/consumer session that records captured frames to a capture file
//! or streams a one-line summary of each.
//!
//! The capture library itself (enumerating devices, reading frames, writing
//! capture files) and the protocol decoder are driven by the caller, which
//! hands their outcomes to the functions here as plain values.

/// Errors of device resolution and capture setup.
pub mod error;
/// Captured frames and the messages that carry them between threads.
pub mod frame;
/// The consumer: session policies and their termination rules.
pub mod session;
/// The producer: the frame reader's life cycle.
pub mod reader;
/// Interfaces, device resolution and the two-step handle opening.
pub mod interface;
/// One-line summaries of decoded frames.
pub mod format;
/// Setting up bounded and live sessions, and interface reports.
pub mod analyzer;
/// The `interfaces`, `capture` and `stream` commands.
pub mod cli;
/// The `interface list` command tree.
pub mod command;
/// The interface of a protocol parser.
pub mod parser;
/// Path placeholders in command-line arguments.
pub mod expand;
