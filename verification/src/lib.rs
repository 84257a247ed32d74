//! The decisions of a desktop shell that hosts a local web service.
//!
//! The shell starts the bundled service and shows its page, hosts one native
//! browser panel beside it, and offers a small control API on the loopback
//! address. Everything that it decides stands here: what each request asks for
//! and how it is answered, each move of an operation on the panel, what is
//! relayed and with which bytes, when the service is asked for, announced and
//! stopped. The shell itself performs what is decided, and tells how it went.

pub mod base64_text;
pub mod control_server;
pub mod harness;
pub mod json_value;
pub mod native_browser;
pub mod panel_bridge;
pub mod panel_laws;
pub mod panel_moves;
pub mod paths;
pub mod process;
pub mod startup;
pub mod text;
pub mod web_url;
pub mod window_guard;
pub mod wire;
