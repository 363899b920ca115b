//! A sans-I/O core for `mdtouch`, a small stand-in for the Unix `touch`
//! command: create each named file if it is absent and bring its access and
//! modification times up to the present.
//!
//! The crate decides; its caller acts. Nothing here opens a file or writes to
//! a terminal. [`session::Session`] hands out one [`session::Action`] at a
//! time, and the caller reports back what the operating system answered.

pub mod cli;
pub mod clock;
pub mod run;
pub mod session;
pub mod text;
