//! Simulation core of a voxel farming game.
//!
//! Plants live in a world of blocks. Each tick every organism moves by the
//! rule of its life phase: a seed germinates, grows up, matures, is
//! pollinated, bears fruit, and in the end dies and decays. Bearing fruit
//! yields seeds and food for the player who owns the plant and spreads new
//! seeds nearby. The simulation repaints the blocks that show the plants and
//! keeps the players' inventories.
//!
//! The library holds no world of its own. It reads the voxel world through
//! functions that the caller hands in, and hands back the writes it asks
//! for. Time and light are fixed-point numbers in thousandths.
//!
//! - [`core_components`]: species and their policy, life phases, organisms.
//! - [`lifecycles`]: the rules from seed to pollinated, and the passes over a
//!   population.
//! - [`fruiting`], [`decay`]: what happens when fruit is borne, and the end.
//! - [`simulation`]: one tick of the whole life cycle.
//! - [`spread`], [`voxel_painting`], [`voxel_world`]: places to seed, places
//!   to plant, and the writes to the world.
//! - [`resources`], [`ledger`]: what players collect, and how it is
//!   credited.
//! - [`spawner`]: making organisms.
//! - [`invariants`]: what holds however the life cycle is driven.
//! - [`block_types`], [`build_common`], [`game_control`], [`actions`],
//!   [`timer`]: blocks and textures, asset paths, controls, countdowns.

pub mod actions;
pub mod block_types;
pub mod build_common;
pub mod core_components;
pub mod decay;
pub mod fruiting;
pub mod game_control;
pub mod invariants;
pub mod ledger;
pub mod lifecycles;
pub mod resources;
pub mod simulation;
pub mod spawner;
pub mod spread;
pub mod timer;
pub mod voxel_painting;
pub mod voxel_world;
