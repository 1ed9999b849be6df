//! Control layer for sequential magnetic-tape drives.
//!
//! The crate holds the rules of talking to a tape driver: which operation code
//! and count a positioning intent becomes, how a raw status word is classified,
//! and in which order a device is opened, used and released. It performs no
//! system call itself. A caller creates a [`session::Session`] with one of the
//! functions in [`tape`], carries out the action the session names, and hands
//! back what the driver answered.

pub mod mtio;
pub mod drive;
pub mod session;
pub mod run;
pub mod tape;
pub mod command;
