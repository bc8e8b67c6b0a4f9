//! Platform integration for a desktop project manager: which terminals a
//! machine offers, and the "open in this app" entry of the file manager.
//!
//! The library decides; it never touches the machine itself. Each operation
//! that needs the operating system is a session that names the next probe or
//! mutation to perform and is resumed with what came of it.

pub mod platform;
pub mod terminals;
pub mod detection;
pub mod probe_world;
pub mod context_menu;
pub mod shell_world;
pub mod project;
