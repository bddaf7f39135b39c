//! Verified core of a tile-map editor shell: the decisions that sit between
//! the window host, the GPU device and the immediate-mode GUI.

pub mod coord;
pub mod grid;
pub mod gui;
pub mod mouse;
pub mod shaders;
pub mod sprite;
