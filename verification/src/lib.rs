//! A string-addressable resource registry and the declarative material
//! descriptions that are loaded into it.

pub mod binding;
pub mod collection;
pub mod document;
pub mod error;
pub mod input;
pub mod interner;
pub mod material;
pub mod mesh;
pub mod omi;
pub mod omtl;
pub mod pipeline;
pub mod render;
pub mod resource;
pub mod schema;
pub mod text;
pub mod vertex;
pub mod yaml;
