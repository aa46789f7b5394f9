//! Decision logic of an inspector pane for physics rigid bodies.
//!
//! The pane itself is drawn by an immediate-mode GUI toolkit and edits live
//! bodies owned by a physics engine; neither host is modelled here. What this
//! crate holds is the part of the pane that is pure logic: the body-status
//! selector and its commit rule, the accumulation of per-field edit flags over
//! one pass, the rule that decides when the combined pose is written back to
//! the body, and the handling of a body handle whose body is absent.

pub mod body_status;
pub mod pass;
