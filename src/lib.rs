//! The computing core of a small desktop demo backend: a calculator, a
//! greeter, a shared counter and the report of a delayed operation. The host
//! shell that dispatches commands, the lock around the counter, the timer and
//! the system information lookup live outside this library.

pub mod calculator;
pub mod counter;
pub mod greeting;
pub mod report;
pub mod text;
