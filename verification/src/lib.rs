//! A minimal HTTP/1.x serving core: a request-line parser, a static route
//! table, a wire-format response builder, and a fixed-size worker-pool
//! dispatch model with a FIFO job queue.
//!
//! The surrounding process (socket accept loop, connection reads and writes,
//! thread plumbing) hands plain values in and takes plain values back; the
//! decisions and the wire formats live here, each behind a contract.

pub mod dispatch;
pub mod handler;
pub mod parser;
pub mod response;
pub mod text;
