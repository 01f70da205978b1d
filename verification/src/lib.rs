//! Frame pacing and resource lifecycle for an explicit GPU API.
//!
//! The crate holds the decisions of a multi-buffered render loop: which
//! swapchain to ask for, in which order GPU objects are built and torn down,
//! which synchronisation slot a frame uses, and how the loop reacts to what the
//! driver reports. The calls into the driver and the window system are made by
//! the embedding program, which feeds their results back as plain values.
//!
//! - [`engine`] is the render loop itself, a state machine; [`frame`] is its
//!   vocabulary and [`laws`] states what holds of it.
//! - [`event_loop`] and [`window`] react to the events of the window system;
//!   [`windows`] is the set of open windows.
//! - [`lifecycle`] knows the GPU objects, what each is built from, and the
//!   plans by which they are built and torn down.
//! - [`swapchain`], [`pipeline`], [`recorder`], [`buffers`] and [`device`]
//!   decide what is created, from what the driver reports.
//! - [`sync`] is the ring of synchronisation slots.
//! - [`validation`] sets up and labels the messages of the validation layers.
//! - [`codes`] holds the numbers that the driver's bindings define, and
//!   [`constants`] the fixed parameters of the engine.

pub mod buffers;
pub mod codes;
pub mod constants;
pub mod device;
pub mod engine;
pub mod event_loop;
pub mod frame;
pub mod laws;
pub mod lifecycle;
pub mod pipeline;
pub mod recorder;
pub mod swapchain;
pub mod sync;
pub mod validation;
pub mod window;
pub mod windows;
