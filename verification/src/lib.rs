//! Verified core of a terminal chat shell: the conversation and its blocks,
//! key and mouse handling, command search, color themes, and where everything
//! goes on the screen.

pub mod app;
pub mod blocks;
pub mod commands;
pub mod event;
pub mod frame;
pub mod geometry;
pub mod height_laws;
pub mod laws;
pub mod loader;
pub mod menus;
pub mod messages;
pub mod palette;
pub mod text;
pub mod theme;
pub mod viewport;
pub mod widgets;
