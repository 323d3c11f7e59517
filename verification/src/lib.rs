//! The verified core of a small web server: a fixed-size pool of workers that
//! runs every submitted job once, in the order of submission, and shuts down
//! without losing a job or a worker; and the rules by which the server answers
//! a request.
//!
//! The pool is written as a transition system ([`state`]) that one thread at a
//! time steps through [`pool::ThreadPool`]; what it guarantees is proved in
//! [`guarantees`]. Threads, locks and sockets are left to the program around
//! this library.

pub mod decimal;
pub mod error;
pub mod guarantees;
pub mod http;
pub mod intake;
pub mod ledger;
pub mod pool;
pub mod state;
pub mod worker;

pub use crate::error::PoolCreationError;
pub use crate::intake::Fetch;
pub use crate::pool::ThreadPool;
pub use crate::worker::{Phase, Worker};
