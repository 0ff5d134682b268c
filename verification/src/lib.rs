//! A default-browser dispatcher: it takes the URL that the shell hands over,
//! picks a browser by an ordered table of URL prefixes, and says what to
//! start. It also knows the records that make the shell offer this program
//! as a browser, and the order of decisions in which they are written.
//!
//! The library decides and never acts. Reading files, starting processes and
//! writing to the shell's store are left to the program around it:
//!
//! - [`config`] reads the browsers and the rules out of a JSON document;
//! - [`rules`] selects a browser key for a URL, first match first;
//! - [`browsers`] maps a browser key to its command;
//! - [`dispatch`] turns a command line into a task;
//! - [`registry`] lists the records of a registration;
//! - [`registrar`] leads a registration step by step;
//! - [`store`] and [`guarantees`] state what a registration leaves behind;
//! - [`failure`] names what can go wrong;
//! - [`text`] compares texts.

pub mod browsers;
pub mod config;
pub mod dispatch;
pub mod failure;
pub mod guarantees;
pub mod registrar;
pub mod registry;
pub mod rules;
pub mod store;
pub mod text;
