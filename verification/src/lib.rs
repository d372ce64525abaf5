//! A self-hosted remote desktop: the relay that registers and pairs devices and
//! forwards what they send, and the client that shows a desktop or serves one.

pub mod auth;
pub mod capture;
pub mod color;
pub mod config;
pub mod crypto;
pub mod decoder;
pub mod encoder;
pub mod end_to_end;
pub mod fragment;
pub mod frame;
pub mod gui;
pub mod hex_text;
pub mod input;
pub mod keymap;
pub mod message;
pub mod nal;
pub mod net;
pub mod relay;
pub mod relay_config;
pub mod server;
pub mod service;
pub mod table;
pub mod transport;
