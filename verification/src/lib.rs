//! The decisions of a tiling Wayland compositor.
pub mod actions;
pub mod animation;
pub mod bits;
pub mod colors;
pub mod config;
pub mod deploy;
pub mod drawing_laws;
pub mod drm;
pub mod frame;
pub mod geometry;
pub mod grab;
pub mod input;
pub mod input_laws;
pub mod ipc;
pub mod keybinds;
pub mod keys;
pub mod launch;
pub mod laws;
pub mod layout;
pub mod lua;
pub mod motion_laws;
pub mod outside_laws;
pub mod paths;
pub mod pointer;
pub mod pointer_laws;
pub mod render;
pub mod session;
pub mod shell;
pub mod state;
pub mod swipe;
pub mod text;
pub mod text_laws;
pub mod transition;
pub mod view_laws;
pub mod window_laws;
pub mod workspace;
