//! A bridge that lets outside handlers take part in template rendering as
//! helpers: a neutral JSON value model with its codec, the snapshot of one
//! helper call, the handle through which a helper asks for its nested
//! blocks, the built-in helpers, and the registry that dispatches by name.

pub mod bridge;
pub mod call_site;
pub mod codec;
pub mod context;
pub mod engine;
pub mod error;
pub mod escape;
pub mod helpers;
pub mod keyed;
pub mod options;
pub mod registry;
pub mod value;
