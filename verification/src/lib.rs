//! Domain layer of the phi governance plane: the graph model (ids,
//! fundamentals, composites, nodes, edges), the consent lifecycle, the
//! domain events and the decisions their listeners take.
//!
//! Everything here is storage-agnostic and free of I/O. Wall-clock reads,
//! random identifiers and the rendering of instants and identifiers as
//! text are delegated to `chrono` and `uuid` through a few small
//! functions in [`time`] and [`model::ids`] whose contracts state what
//! those crates document.

pub mod audit;
pub mod consents;
pub mod events;
pub mod model;
pub mod permissions;
pub mod time;
