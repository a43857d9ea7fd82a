//! Verified core of the capybara 2D game framework: the network packet codec,
//! the powder simulation grid, asset loading state machines and renderer batching rules.
pub mod network;
pub mod powder;
pub mod text;
pub mod renderer;
pub mod input;
pub mod assets;
pub mod filesystem;
pub mod scene;
pub mod ui;
