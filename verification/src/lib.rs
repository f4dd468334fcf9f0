//! Core of a minimal windowed renderer.
//!
//! The library holds the verified logic of the renderer: the CPU-side
//! description of drawable geometry, the atomic construction of a drawable
//! from its GPU resources, the frame composer that turns the drawable
//! collection into the exact sequence of rendering steps for one frame, and
//! the event-loop shell that maps platform events to state changes and
//! actions. The windowing, GPU and UI-overlay work itself is performed by an
//! unverified front end that executes the actions and steps this library
//! decides on.

pub mod drawable;
pub mod frame;
pub mod geometry;
pub mod shell;
