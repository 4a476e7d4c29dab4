//! Request dispatch onto a fixed pool of long-lived inference workers.
//!
//! The library holds the decisions: how a request body becomes a model
//! input, how the shared work queue hands items to workers, how a worker
//! moves through its life, and how an outcome becomes a response.  The
//! threads, the model itself and the HTTP transport live around it.
//!
//! Policies:
//! - the queue is unbounded: a request is never refused for load, only
//!   once the queue is closed;
//! - a worker that fails to load its model stops, and closes the queue:
//!   a missing or corrupt model is a deployment error;
//! - a worker that dies on an item loses that item (its caller sees
//!   `NoReply`) and is replaced by a fresh one that loads again;
//! - a model error on one input is that request's reply, and the worker
//!   goes on to the next item.

pub mod config;
pub mod dispatch;
pub mod image;
pub mod laws;
pub mod model;
pub mod pool;
pub mod queue;
pub mod reply;
