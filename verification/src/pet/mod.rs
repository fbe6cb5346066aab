//! The pet: behavior vocabulary, animation manifests and their resolution.
pub mod types;

pub use types::{
    AnimationGroup, BehaviorIntent, BehaviorMode, Direction, Personality, PetState,
};
pub mod manifest;
pub mod table;
pub mod resolver;
pub mod catalog;
pub mod engine;
