pub mod render;
pub mod state;
