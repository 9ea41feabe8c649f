//! Core of a minimal static-mesh renderer: mesh ingestion, vertex layout,
//! pipeline configuration and the frame-presentation state machine.

pub mod draw;
pub mod error;
pub mod frame;
pub mod layout;
pub mod mesh;
pub mod pipeline;
pub mod shader;
pub mod vertex;
