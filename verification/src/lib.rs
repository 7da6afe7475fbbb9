//! Browsing a lazily evaluated configuration tree through an external
//! evaluator process.
//!
//! - `path`, `syntax`: node addresses, the expression in which a node is
//!   asked for, and how such an expression is read back.
//! - `value`, `codec`, `json`: what the evaluator reports of a node, and how
//!   a line of its output is decoded.
//! - `worker`: the exchange with the evaluator, one request at a time.
//! - `model`, `update`: the application state, and how navigation and the
//!   evaluator's reports change it.
//!
//! The modules whose names end in `_laws` prove what holds of these for
//! all inputs.

pub mod text;
pub mod syntax;
pub mod syntax_laws;
pub mod path;
pub mod value;
pub mod json;
pub mod codec;
pub mod codec_laws;
pub mod worker;
pub mod worker_laws;
pub mod model;
pub mod update;
pub mod update_laws;
