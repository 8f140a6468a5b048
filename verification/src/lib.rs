//! Finds out where "here" is and says so.
//!
//! A run resolves a location (the working directory, a segment joined to it,
//! or the place of a program that the system's locate facility finds),
//! transforms it in a fixed order of steps, and hands the result to the
//! clipboard, the terminal and, on request, the keyboard.
//!
//! The library decides and computes; it touches neither the file system nor
//! the terminal. [`session`] leads a run as an exchange of questions and
//! answers with whoever drives it. [`fetch`] reads the locate facility's
//! output, [`transform`] turns a path into the text that is shown,
//! [`dispatch`] lays out what is delivered, [`report`] words errors and
//! warnings, [`colorize_ext`] holds the colours, [`cli`] the command line,
//! and [`text`] the operations on characters underneath it all.

pub mod cli;
pub mod colorize_ext;
pub mod dispatch;
pub mod fetch;
pub mod report;
pub mod session;
pub mod text;
pub mod transform;
