//! Client-side model of a transaction-simulation and virtual-network (VNet)
//! service: request builders, response reconciliation, endpoint resolution,
//! the routes, and the hex/wei codec, with verified contracts.

pub mod codec;
pub mod paths;
pub mod simulation;
pub mod text;
pub mod vnets;
