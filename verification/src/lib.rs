//! A model of the PROS runtime of a VEX V5 brain: the devices, the cooperative
//! task scheduler and the host calls that robot code makes, as state machines
//! over plain values.
pub mod abi;
pub mod api;
pub mod host;
pub mod interface;
pub mod system;
pub mod text;
