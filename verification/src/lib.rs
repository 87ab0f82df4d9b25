//! Synthesis of a two-pass GIF conversion pipeline: validated conversion
//! options, a deterministic filter-graph builder, a dither policy, the
//! argument lists for the two external encoder invocations, and the state
//! machine that sequences the passes and the cleanup protocol.
pub mod command;
pub mod filter;
pub mod options;
pub mod pipeline;
pub mod text;
