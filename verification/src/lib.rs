//! Verified logic for walking the game's object tree, finding the jobs of
//! its task scheduler, scanning for field offsets, preparing text for the
//! game's print function, and the state of the overlay menu.
#![allow(non_snake_case)]

pub mod layout;
pub mod text;
pub mod instances;
pub mod bruteforce;
pub mod settings;
pub mod menu;
pub mod panels;
pub mod targets;
pub mod util;


