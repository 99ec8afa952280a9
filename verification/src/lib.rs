//! The front end of a container image registry, as far as it decides
//! anything: the vocabulary of errors that the registry answers with, and
//! the state machine behind the catalog browser.

pub mod catalog;
pub mod errors;
