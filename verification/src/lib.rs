//! A verified message router for a NativeActivity host of the HyperOS
//! Flutter weather engine.
pub mod bytes;
pub mod codec;
pub mod messages;
pub mod routing;
pub mod logline;
pub mod abi;
pub mod router;
pub mod laws;
pub mod wire_laws;
pub mod routing_laws;
pub mod format_laws;
