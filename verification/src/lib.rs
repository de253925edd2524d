//! Interpreters for the Emmental and Mascarpone languages.
//!
//! Both languages drive a stream of symbols through a *current interpreter*,
//! a first-class mapping from symbols to operations.  Emmental works on
//! 8-bit symbols with a byte stack and a byte queue; Mascarpone works on
//! characters and adds reflection: the interpreter itself can be pushed on
//! the data stack, rebuilt there, and installed back as the evaluation rule.

pub mod emmental;
pub mod mascarpone;
