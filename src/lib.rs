//! Classification, decoding and playback of animated avatar images, with
//! the session state and site records of the client around them.
//!
//! An image resource is either drawn as a static bitmap or, when it holds
//! a multi-frame animation, decoded off the render path and played back
//! frame by frame as the renderer queries it.

pub mod api;
pub mod assets;
pub mod avatar;
pub mod cache;
pub mod decode;
pub mod engine;
pub mod login;
pub mod playback;
pub mod state;
pub mod timing;
