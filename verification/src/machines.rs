//! The machines: the generic framework pieces shared by every machine, and
//! two concrete machines (a lathe and a mill) built on them.

pub mod lathe;
pub mod mill;
pub mod shared;
