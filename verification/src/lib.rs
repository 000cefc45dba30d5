//! Device models of a virtual-machine monitor and the layer that runs one of
//! them in a sandboxed process of its own.
//!
//! The heart of the library is [`proxy`]: a device model is moved into a
//! forked process, and every call that the bus makes on it travels there as
//! one request and comes back as one response, so that the machine cannot
//! tell the device from one that runs in its own process. Around it stand the
//! interface of a device ([`bus`], [`suspendable`]), what a forked process is
//! ([`process`], [`jail`]), a few device models and parts of them ([`bat`],
//! [`balloon`], [`balloon_control`], [`pcie_rp`], [`tap`]), the messages
//! that control a running machine ([`vm_control`]), and what the library
//! knows of its hosts ([`linux`], [`event`], [`display`], [`block`]).
//!
//! Nothing here reads a file, forks or sends a byte. What the host does is
//! handed in as plain values or reached through a trait of which nothing is
//! assumed, so that what is proved holds whatever the host does.

pub mod arch;
pub mod balloon;
pub mod balloon_control;
pub mod bat;
pub mod block;
pub mod bus;
pub mod display;
pub mod errno;
pub mod event;
pub mod executor;
pub mod jail;
pub mod json;
pub mod linux;
pub mod pcie_rp;
pub mod process;
pub mod proxy;
pub mod suspendable;
pub mod tap;
pub mod text;
pub mod tracing;
pub mod vhost_user;
pub mod vm_control;
