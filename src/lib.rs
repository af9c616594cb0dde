//! A small tile-based exploration game: a bounded grid map with obstacles and
//! portals, a player that walks on it, timed popups, a main menu and a screen
//! manager that switches between them. Rendering and windowing live outside
//! this library; everything here is plain data and decisions.

pub mod random;
pub mod map;
pub mod popup;
pub mod input;
pub mod screens;
pub mod game;
pub mod menu;
