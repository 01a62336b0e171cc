//! Block replay tracing: the records that one block's transactions leave when
//! they are run again on the state before the block, and the rules by which
//! the replay is sequenced.

pub mod encoding;
pub mod environment;
pub mod error;
pub mod primitives;
pub mod replay;
pub mod trace_inspector;
