//! Batching and pipeline selection for an immediate-mode 2D renderer on a
//! retained-mode GPU.
//!
//! Callers submit triangle lists, each with a draw state and a vertex kind.
//! The library accumulates them into batches, decides when a batch has to be
//! flushed so that paint order is kept, and records for every flush the
//! render pass that draws it. It never talks to a device: a finished frame
//! is a list of passes, each with everything that is to be bound for it.
//!
//! - [`draw_state`]: the draw state of an operation and the key of the
//!   pipeline it selects.
//! - [`pipeline`]: the blend and stencil configuration of every pipeline,
//!   what the stencil unit does with it, and the table of pipelines.
//! - [`vertex`]: the two vertex shapes and their buffer layouts.
//! - [`texture`]: texture handles and the plans to create and update
//!   textures.
//! - [`command`]: the recorded form of a frame and what it paints.
//! - [`batch`]: the batching rules as a state machine, and what holds of
//!   every run of it.
//! - [`graphics`]: the engine and the frame that carry the rules out.

pub mod draw_state;
pub mod pipeline;
pub mod vertex;
pub mod texture;
pub mod command;
pub mod batch;
pub mod graphics;
