use vstd::prelude::*;

pub mod clock;
pub mod config;
pub mod crash;
pub mod edit;
pub mod detect;
pub mod games;
pub mod governor;
pub mod health;
pub mod instance;
pub mod json;
pub mod jvm;
pub mod launch;
pub mod modules;
pub mod mods;
pub mod modstore;
pub mod paths;
pub mod platform;
pub mod rules;
pub mod runescape;
pub mod sharing;
pub mod system;
pub mod telemetry;
pub mod text;

verus! {

} // verus!
