//! Core of an interactive terminal dashboard that drives an external
//! version-control tool: the asynchronous command-execution and
//! UI-coordination layer.
//!
//! The library holds the verified logic: how an external invocation's result
//! is classified, how the one-shot channel that carries it behaves, how the
//! transient loader popup turns a delivered result into UI actions, how
//! batched actions mutate the shared UI state, and how the render loop
//! filters events and chooses its wait timeout. The surrounding process
//! plumbing (threads, the terminal, the subprocess itself) lives outside the
//! library and hands plain values in and out.

pub mod channel;
pub mod component;
pub mod config;
pub mod event_loop;
pub mod geometry;
pub mod loader;
pub mod outcome;
