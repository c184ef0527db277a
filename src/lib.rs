//! The core of a quick-capture tool: a global shortcut brings up a small
//! window at the cursor, and closing it gives focus back to the application
//! that had it.
pub mod shortcut;
pub mod registry;
pub mod window;
pub mod focus;
pub mod settings;
pub mod capture;
