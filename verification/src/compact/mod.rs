//! The compact variant of the tray: a client that fetches only the online
//! names and the weather flags, a state in which the server may leave the
//! names out, and the menu texts built on them.
pub mod api;
pub mod state;
pub mod tray;
