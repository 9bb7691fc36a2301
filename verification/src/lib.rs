//! A registry of workers (hosts) and VMs (guests) for a Firecracker control
//! plane: where each VM runs, which workers are healthy, and which worker has
//! room for a new VM.
pub mod models;
pub mod model;
pub mod clock;
pub mod registry;
pub mod endpoints;
pub mod placement;
pub mod laws;
pub mod text;
pub mod api;
