//! The decisions behind a task manager's native process queries.
//!
//! Nothing here calls the operating system. Every function takes what a query reported as
//! plain values and says what follows from it: an answer, an error code, or the next query
//! to make.
//!
//! * [`machines`] classifies a process from the machine types the system reported.
//! * [`image`] says what a program file is, and [`scan`] finds that out with a few bounded
//!   reads, in the way that [`scan_model`] lays down; [`rva`] and [`bytes`] are the pieces all
//!   of them are made of.
//! * [`query`] and [`main_image`] order the calls of a whole architecture query.
//! * [`safety`] orders the calls that enable a privilege and that check for elevation.
//! * [`win32`] and [`errors`] hold the numbers of the Win32 interface and the rules by which
//!   failures become error codes.

pub mod bytes;
pub mod errors;
pub mod image;
pub mod machines;
pub mod main_image;
pub mod query;
pub mod rva;
pub mod safety;
pub mod scan;
pub mod scan_model;
pub mod win32;
