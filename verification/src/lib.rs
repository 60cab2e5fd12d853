//! A safe, verified core for enumerating the host's network interfaces and
//! for waiting until the kernel reports a change of the interface list.
//!
//! The kernel hands an enumeration over as a null-terminated, singly linked
//! list of interface records that the operating system owns. This crate
//! models that list over plain values: a handle owns a snapshot of the
//! records together with their forward links, and an iterator walks the
//! links from the head until the terminating null, exactly as the foreign
//! list is walked. The change watcher is modelled as a state machine whose
//! transitions classify every outcome of the underlying notification
//! channel and account for the channel's acquisition and release.
//!
//! Everything that touches the operating system (the enumeration syscall,
//! the list deallocation, the notification socket) lives outside this
//! library and feeds it plain values.

pub mod addr;
pub mod error;
pub mod list;
pub mod record;
pub mod watch;
