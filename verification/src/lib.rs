//! A tethered-camera session and capture coordinator.
//!
//! The crate owns the lifecycle of a connection to a camera that is driven
//! through a vendor control library: initialising and terminating the vendor
//! SDK, connecting to a device, opening a session, issuing still-capture and
//! movie-recording commands, and reconciling those commands with the
//! callback-driven event stream that delivers the captured media.
//!
//! The vendor SDK itself is a foreign, stateful call surface; every call into
//! it is performed by the host around this crate. The coordinator here is the
//! decision core: each operation takes the outcomes of the SDK calls it
//! depends on as plain values and computes the next coordinator state and the
//! result handed to the caller. All of that logic is verified.

pub mod capture;
pub mod coordinator;
pub mod encode;
pub mod events;
pub mod laws;
pub mod recording;
pub mod registry;
pub mod errors;
pub mod text;
pub mod types;
