//! A pointer-driven drag controller for freely movable UI elements.
//!
//! The heart of the crate is [`drag::DragController`]: a per-element state
//! machine that owns at most one pointer at a time, tracks the pointer's
//! displacement since drag start, and keeps an absolute logical position up
//! to date. The host UI layer feeds it pointer events and carries out the
//! best-effort pointer-capture requests it hands back; the controller itself
//! never touches the rendering environment.
//!
//! [`laws`] states and proves the guarantees the controller gives across
//! whole event sequences: cancellation is idempotent, a drag is owned by a
//! single pointer, a session closes exactly once, and a symmetric move
//! returns the element to where it started.

pub mod drag;
pub mod laws;

pub use drag::CaptureRequest;
pub use drag::DragController;
pub use drag::DragState;
pub use drag::Point;
pub use drag::PointerButton;
