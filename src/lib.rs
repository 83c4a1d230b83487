//! Startup of a desktop shell whose window system, webview and plugins are
//! provided by an application framework. The library decides what follows
//! an attempt to build the application; the embedding program performs the
//! build, runs the event loop, and terminates the process when told to.
pub mod startup;
