//! Discovery and power control for a Bluetooth LE host adapter exposed on a
//! system message bus.
//!
//! The library locates, among the objects a bus service manages, the first one
//! that implements the LE advertising manager interface, and then controls
//! that adapter's `Powered` property: a fire-and-forget write, and an
//! asynchronous poll-until-true read modelled as an explicit state machine.
//! The bus transport itself is an external collaborator: the library consumes
//! plain values read off the bus and produces the requests to issue against
//! it, so that every decision it makes is verified.

pub mod adapter;
pub mod bus;
pub mod error;
pub mod poll;
