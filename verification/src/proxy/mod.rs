//! Running a device model in a process of its own.
//!
//! The parent keeps a [`device::ProxyDevice`], the child runs a
//! [`session::SandboxedSession`] around the real device model, and the two
//! exchange the messages of [`protocol`] over a channel, one request at a
//! time. [`handle`] says which request stands for a call and what a
//! response means; [`laws`] holds what is proved of the two sides together.
//! Moving the messages is left to the caller.

pub mod device;
pub mod handle;
pub mod laws;
pub mod protocol;
pub mod session;
