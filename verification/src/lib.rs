//! Verified core of the burst-click desktop helper: text rules for stored
//! file names, the update-check decisions, GitHub proxy routing, key tables
//! and profile validation.

pub mod text;
pub mod stem;
pub mod sound;
pub mod weburl;
pub mod update;
pub mod lock;
pub mod key_id;
pub mod profile;
pub mod dd;
pub mod clicker;
