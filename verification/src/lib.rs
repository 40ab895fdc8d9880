//! A finite-state-machine actor framework: state containers that bind a
//! state tag to exclusively owned business data, runtime wrappers that
//! dispatch commands against whichever state is current, and a controller
//! that feeds commands through an ordered mailbox pair and drains the
//! responses in submission order.

pub mod decimal;
pub mod machines;
