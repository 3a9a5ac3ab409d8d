//! A streaming log pretty-printer core: it classifies structured log
//! records, correlates request-start records with their completions
//! through a pending-request store, and renders matched pairs as
//! colorized status lines, passing unrecognized input through verbatim.

pub mod color;
pub mod correlate;
pub mod filter;
pub mod numfmt;
pub mod record;
pub mod render;
pub mod store;
