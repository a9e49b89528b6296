//! Assembling FreeBSD `nmount(2)` option lists and interpreting the results.
//!
//! The mount syscall takes its configuration as a flat array of name/value
//! byte regions.  [`options::Nmount`] accumulates such regions, tracking for
//! each one whether it is borrowed from the caller or owned by the builder,
//! so that every owned region is released exactly once.  [`invoke`] turns an
//! accumulated list into one request — appending the reserved diagnostic
//! slot the kernel writes its error text into — and interprets the raw
//! outcome of the call.  [`unmount`] prepares and interprets the companion
//! detach call.  [`flags::MntFlags`] is the bitmask of behavior flags shared
//! by both calls.
//!
//! Issuing the actual syscalls is platform work that lives outside this
//! library; everything here is plain data manipulation.

pub mod flags;
pub mod invoke;
pub mod options;
pub mod unmount;
