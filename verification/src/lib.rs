use vstd::prelude::*;

pub mod text;
pub mod num;
pub mod weburl;
pub mod validation;
pub mod config;
pub mod email;
pub mod platform;
pub mod public_id;
pub mod palette;
pub mod themes;
pub mod escape;
pub mod links;
pub mod landing;
pub mod render;
pub mod jsonld;
pub mod smart_landing;
pub mod qr;
pub mod webhooks;
pub mod migrations;
pub mod architecture;
pub mod origin;
pub mod error;
pub mod events;
pub mod mcp;
pub mod cdp;
pub mod brand;
pub mod threat;

verus! {

} // verus!
