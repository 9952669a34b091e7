pub mod actions;
pub mod ammo;
pub mod animation;
pub mod audio;
pub mod buffs;
pub mod camera;
pub mod cleanup;
pub mod config;
pub mod events;
pub mod player;
pub mod powers;
pub mod sprites;
pub mod state;
pub mod text;
pub mod timer;
pub mod ui;
pub mod util;
pub mod waves;
