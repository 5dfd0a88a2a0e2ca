//! The verified core of a desktop screen recorder that drives FFmpeg: the
//! window list and its order, the control API's admission rules and
//! handlers, the MCP bridge, settings, tokens, FFmpeg arguments, and the
//! desktop window's messages and controls.

pub mod capture;
pub mod ffmpeg_search;
pub mod gui;
pub mod language;
pub mod mcp;
pub mod server;
pub mod settings;
pub mod text;
pub mod token;
pub mod windows_capture;
