//! Game rules of the lightcycle arcade: its shared random generator, the
//! Tetris board, the main menu and pause menu, and the small decisions the
//! arena renderers make on grid cells.

pub mod rng;
pub mod text;
pub mod minigame;
pub mod tetris;
pub mod palette;
pub mod menu;
pub mod controls;
pub mod document;
pub mod city;
pub mod ride;
