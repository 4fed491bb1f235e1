//! Planning core of a live-audio graph builder.
//!
//! The builder assembles a fixed mixing topology on a running media graph:
//! each configured input feeds its own channel strip and a looper tap, the
//! channel strips feed one of four fixed group buses, the group buses feed a
//! single output stage, and the output stage feeds the physical outputs.
//!
//! Everything here is pure planning: the functions take snapshots of the
//! remote registry, factory and graph state as plain values and return the
//! creation requests and link requests the builder must issue.  The process
//! edge that actually speaks to the three services performs each returned
//! request in order and feeds the responses back into the next stage.

pub mod model;
pub mod resolve;
pub mod groups;
pub mod wiring;
pub mod stages;
pub mod pipeline;
pub mod laws;
