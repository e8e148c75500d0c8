//! Bindings, gestures and device settings for Logitech mice.
//!
//! * [`binding`]: buttons, gesture directions, the catalog of actions, and what a
//!   button is bound to.
//! * [`chord`]: key combinations that the user types or records.
//! * [`swipe`]: telling swipes from clicks while a gesture button is held.
//! * [`config`]: preferences and per-device settings, with per-app overrides and
//!   the migration of older records.
//! * [`document`]: the configuration as a file has it, and what saving and loading
//!   come to.
//! * [`stored`]: the names in that file, and how a stored binding is told apart.
//! * [`bindings`]: the maps that event handling reads.
//! * [`inject`]: the events that an action comes to on each platform.
//! * [`device`], [`ordered_map`], [`text`]: what the others are built on.
//!
//! The library computes on plain values. It reads no file, sends no event and asks
//! no service; of the outside world it only reads the monotonic clock, in
//! [`swipe`].
pub mod binding;
pub mod bindings;
pub mod chord;
pub mod config;
pub mod device;
pub mod document;
pub mod inject;
pub mod ordered_map;
pub mod stored;
pub mod swipe;
pub mod text;
