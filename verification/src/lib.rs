//! Scene bookkeeping for a real-time renderer: resource caches, viewpoint
//! input handling, light storage layout, mesh assembly and the frame
//! lifecycle, all stated over plain values so that a windowing and GPU
//! front end can drive them.

pub mod bytes;
pub mod cache;
pub mod camera;
pub mod collection;
pub mod event;
pub mod light;
pub mod material;
pub mod mesh;
pub mod model;
pub mod query;
pub mod renderer;
pub mod scene;
pub mod shader;
pub mod state;
pub mod text;
pub mod texture;
pub mod vertex;
