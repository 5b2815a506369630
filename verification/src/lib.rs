//! Verified core of the Ferrolite photo editor's front end: edit history,
//! the warm-navigation cache, the thumbnail upload budget, the app icon, and
//! the decisions behind the Develop panels, overlays, shortcuts and window
//! chrome.
pub mod cache;
pub mod chrome;
pub mod coverage;
pub mod crop;
pub mod curve;
pub mod histogram;
pub mod history;
pub mod icon;
pub mod info;
pub mod lens;
pub mod mask;
pub mod modal;
pub mod registry;
pub mod scope;
pub mod shortcuts;
pub mod tabs;
pub mod thumbs;
pub mod viewer;
