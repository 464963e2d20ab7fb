//! The decisions of a screenshot tool: the annotation editor's items,
//! selection, history and layout, the region-selection overlay with its
//! menu, and the resident controller's routing.
//!
//! Windows, pixels on screen, the file system and floating-point geometry
//! stay outside. Where a decision depends on them, the function takes the
//! outcome as a value, or takes the operation as a closure and states its
//! contract over what that closure returns.

pub mod history;
pub mod rect;
pub mod order;
pub mod pure;
pub mod annotation;
pub mod transform;
pub mod measure;
pub mod style;
pub mod grid;
pub mod pixels;
pub mod paint;
pub mod bake;
pub mod stroke;
pub mod keys;
pub mod fields;
pub mod toolbar;
pub mod editor;
pub mod commands;
pub mod press;
pub mod drag;
pub mod release;
pub mod canvas;
pub mod opening;
pub mod laws;
pub mod item_laws;
pub mod drawing_laws;
pub mod command_laws;
pub mod menu;
pub mod monitors;
pub mod region;
pub mod overlay;
pub mod selecting;
pub mod recording;
pub mod files;
pub mod backdrop;
pub mod overlay_laws;
pub mod picture_laws;
pub mod resident;
pub mod capture_laws;
pub mod display_laws;
pub mod settings;
pub mod icon;
pub mod events;
pub mod session_laws;
pub mod gesture_laws;
