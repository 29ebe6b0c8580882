//! Verified core of the LEDzilla display server: component descriptions, colour
//! handling, per-frame drawing state, text templates, uploaded images, the
//! renderer's command handling, the HTTP API's decisions and the configuration.

use vstd::prelude::*;

pub mod component;
pub mod config_parse;
pub mod graphics_component;
pub mod renderer;
pub mod server;
pub mod text;
pub mod upload;

verus! {

/// Where and how the server runs.
#[derive(Debug)]
pub struct LedzillaServerConfig {
    /// Address to listen on.
    pub ip: String,
    /// Port to listen on.
    pub port: u16,
    /// Directory of the static web content.
    pub content_root: String,
    /// Width and height of the drawing canvas, in pixels.
    pub canvas_size: (u32, u32),
}

impl Clone for LedzillaServerConfig {
    fn clone(&self) -> (c: Self)
        ensures
            c.ip@ == self.ip@,
            c.port == self.port,
            c.content_root@ == self.content_root@,
            c.canvas_size == self.canvas_size,
    {
        LedzillaServerConfig {
            ip: self.ip.clone(),
            port: self.port,
            content_root: self.content_root.clone(),
            canvas_size: (self.canvas_size.0, self.canvas_size.1),
        }
    }
}

} // verus!
