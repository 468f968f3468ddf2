//! Event-driven job engine of a certificate authority: the records kept in
//! the job store, the events on the task stream, the alias that lets a
//! producer follow its request, and the state machine that drives each
//! request from intake to a signed certificate.
pub mod text;
pub mod error;
pub mod alias;
pub mod job;
pub mod event;
pub mod sign;
pub mod machine;
pub mod store;
pub mod worker;
pub mod laws;
pub mod config;
pub mod web;
pub mod repl;
