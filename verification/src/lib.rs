//! A typed state-serialization layer: a compact binary codec
//! (variable-length integers, fixed and length-prefixed byte strings,
//! hex text) together with a proxy abstraction over a hierarchical
//! key-value store, and typed accessor wrappers built on both.

pub mod codec;
pub mod coreaccounts;
pub mod proxy;
pub mod scagentid;
pub mod scbigint;
pub mod scbool;
pub mod scbytes;
pub mod scnftid;
pub mod scuint16;
pub mod scuint32;
pub mod scuint64;
pub mod state;
