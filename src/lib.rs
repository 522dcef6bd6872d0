//! Polls price endpoints for a fixed list of instruments and appends each
//! price to the instrument's own log. The library holds the decisions: where
//! a price sits in a response, what a response's status and body mean, what a
//! log receives, and the order of work in the poll loop.

pub mod fetch;
pub mod json;
pub mod poll;
pub mod quote;
pub mod record;
