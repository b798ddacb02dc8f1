//! Decision logic of a chain synchronisation engine: which heights a header
//! locator names, whether the node has to sync, which phases are due on a
//! tick, and which blocks and which state snapshot to ask peers for.

pub mod body;
pub mod clock;
pub mod driver;
pub mod fast;
pub mod header;
pub mod locator;
pub mod needs;
pub mod types;
