//! A live-reloading development server for forester forests: the decisions,
//! text and bookkeeping that the server, the file watcher and the terminal
//! interface make.
pub mod app_loop;
pub mod cli;
pub mod events;
pub mod forest;
pub mod home;
pub mod reload;
pub mod server;
pub mod text;
pub mod tui;
pub mod watch;
