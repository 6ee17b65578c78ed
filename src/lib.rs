//! A read-through cache over a remote key-value store: look a key up, and on a
//! miss compute the value, write it back with a time-to-live, and return it.
pub mod config;
pub mod command;
pub mod cache;
pub mod store;
