//! Core logic of a reference-board scene editor: placeable prefabs carry a
//! name and a generation workflow, assets live under a fixed directory
//! layout, and images or 3D models are produced by a remote generation
//! server reached over HTTP and a WebSocket.
//!
//! This crate holds the editor's decisions — naming, asset paths, workflow
//! transitions, job construction and the generation protocol — as verified
//! functions over plain values. Window, rendering, input and network glue
//! live outside and hand plain values in.

pub mod comfy;
pub mod generation;
pub mod naming;
pub mod paths;
pub mod prefab;
pub mod text;
pub mod workflow;
