//! Verified model of the player parts that make up a Minecraft skin render:
//! body parts, texture coordinates, armor slots, the Ears mod features and the
//! builder instructions that lay them out, and the integer bookkeeping of the
//! GPU output buffers and render passes.

pub mod types;
pub mod uv;
pub mod texture_transform;
pub mod model;
pub mod ears;
pub mod ears_providers;
pub mod minecraft;
pub mod textures;
pub mod graphics;
pub mod mesh;
pub mod tracking;
pub mod scene;
pub mod ears_layout;
