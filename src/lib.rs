//! The native side of a desktop application shell: the menu bar it shows, the
//! table that turns a menu activation into an action, the commands the embedded
//! content may invoke, and the order in which the process sets itself up.
pub mod text;
pub mod router;
pub mod menu;
pub mod commands;
pub mod lifecycle;
