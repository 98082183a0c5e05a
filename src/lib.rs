//! Decision logic of a game-client patcher: parsing a mirror's patch index,
//! choosing the patches still to apply, ordering them, searching the mirrors,
//! applying patches with a crash-safe cache record, and the controller that
//! reacts to the front end's commands.

pub mod apply;
pub mod archive;
pub mod assets;
pub mod command;
pub mod controller;
pub mod mirror;
pub mod pipeline;
pub mod plist;
pub mod progress;
pub mod session;
pub mod status;
