//! Verified core of a multi-window, multi-viewport rendering harness.
//!
//! Several windows are driven from one event loop. Each window has a
//! graphics context and a renderer of its own, and its surface is split
//! into four viewports that are drawn one after the other.
//!
//! The library holds the rules and none of the resources: which windows
//! exist ([`manager`]), what a surface remembers ([`surface`]), how a frame
//! is laid out ([`renderer`], [`viewport`]) and executed ([`frame`]), what
//! each event leads to ([`event_loop`]), and where the windows go at
//! startup ([`placement`]). Windows, graphics contexts and draw calls
//! belong to the program around it, which tells the library what the
//! windowing and graphics layers answered and carries out what the library
//! decides.

pub mod event_loop;
pub mod frame;
pub mod manager;
pub mod placement;
pub mod renderer;
pub mod surface;
pub mod viewport;
