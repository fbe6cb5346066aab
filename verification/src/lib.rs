//! Happy Cappy: the verified core of a desktop companion pet.
//!
//! The library holds the pet's data model and decision logic: the behaviour
//! engine, notification bounding, animation manifests and their fallback
//! chains, sprite-sheet geometry and pixel blitting, micro actions, pointer
//! interaction, tick scheduling, the pet picker's rows and the speech-bubble
//! model.
pub mod text;
pub mod bubble;
pub mod micro_action;
pub mod pet;
pub mod external;
pub mod notification;
pub mod pixels;
pub mod sprite;
pub mod renderer;
pub mod preview;
pub mod paths;
pub mod bundle;
pub mod settings;
pub mod menu_bar;
pub mod window_macos;
pub mod picker_entries;
pub mod schedule;
pub mod interaction;
