//! The decisions of the TG WS Proxy launcher: configuration, command line, proxy secret, start-up
//! of the proxy in its console, window, tray and service modes, and what the user sees of it.
//!
//! Apart from the random bytes of a new secret, nothing here comes from the system. Functions take
//! what was read (a file, an argument list, a click, the result of an attempt) and return what is
//! to be done as a [`plan::Plan`], a list of actions that the program performs in order.
pub mod args;
pub mod config;
pub mod gui;
pub mod launch;
pub mod plan;
pub mod runs;
pub mod secret;
pub mod service;
pub mod text;
pub mod tray;
