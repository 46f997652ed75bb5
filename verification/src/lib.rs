//! The kernel object model and launch-validation engine of a GPU compute API.
//!
//! A kernel is a handle to one compiled function of a built program, together
//! with one mutable binding slot per declared argument. This crate verifies
//! the rules that govern that handle: how kernels are derived from a built
//! program, which argument binds are legal, and when a multi-dimensional
//! launch request is accepted, rejected, or degenerates to a no-op.
//!
//! The collaborators around the core — the build pipeline, the device
//! capability model, memory and sampler objects, and the queue that runs the
//! accepted work — appear as plain-value summaries: a program as its exported
//! names, per-device build results and argument descriptors; a device as its
//! limits; a bound object as its identity.

pub mod binding;
pub mod kernel;
pub mod launch;
pub mod program;
pub mod queries;
pub mod types;
