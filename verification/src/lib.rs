//! Verified core of an in-process overlay hook.
//!
//! The crate holds the decisions of a component that lives inside a host
//! process, redirects one exported function of the host's graphics driver,
//! and draws an overlay each time the host presents a frame. The effects on
//! the host (looking symbols up, patching code, building a rendering
//! context, drawing, calling the target's own code) are carried out by the
//! embedding program. This crate says which effect comes next, tracks the
//! state that results, and proves what holds of every run. The one thing it
//! asks for itself is the address of a graphics procedure, see [`loader`].

pub mod cname;
pub mod resolver;
pub mod hook;
pub mod overlay;
pub mod loader;
pub mod orchestrator;
pub mod host;
pub mod entry;
