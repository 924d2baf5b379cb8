//! Lifecycle and data flow of a depth/normal prepass.
//!
//! A prepass renders the normals and depth of the opaque geometry of a view
//! into a texture, before the main color pass, and the materials of the main
//! pass sample that texture. This library holds the rules around that extra
//! pass, each with a contract that the verifier checks:
//!
//! - [`texture`] owns the target texture and the `bevy` image behind it
//!   ([`image`] states what is trusted of `bevy`);
//! - [`resize`] keeps the texture at the physical size of the output surface;
//! - [`material`] marks the materials of a modified texture dirty, so that no
//!   bind group outlives the storage it points at;
//! - [`system`] takes texture, view record and materials through the stages
//!   of frame preparation;
//! - [`node`] decides what the prepass of a view records, as plain
//!   [`command`]s;
//! - [`graph`], [`schedule`] and [`plugin`] place the node in the pass graph,
//!   before the main color pass and on the same view.
//!
//! The host performs what the library decides: it submits the recorded
//! commands, registers the node, and keeps its own assets in step.

pub mod command;
pub mod graph;
pub mod image;
pub mod material;
pub mod node;
pub mod plugin;
pub mod resize;
pub mod schedule;
pub mod size;
pub mod system;
pub mod texture;
pub mod view;
