//! Core logic of an interactive photo kiosk.
//!
//! The kiosk shows a live camera preview, runs a countdown-then-capture
//! sequence on request, and presents the captured still for a timed
//! interval before returning to the idle preview. This crate holds the
//! verified core: the kiosk state machine, the shared frame-buffer slot
//! with its frame-rate history, the pixel transforms applied to raw
//! camera frames, the image/texture resource bridge with its
//! release-exactly-once ownership model, and the per-tick render logic
//! expressed as plain draw commands. Device access, windowing and the
//! GPU backend live outside this crate and exchange plain values with it.

pub mod color;
pub mod error;
pub mod frame;
pub mod image;
pub mod keys;
pub mod kiosk;
pub mod layout;
pub mod render;
pub mod slot;
pub mod texture;

pub use color::Color;
pub use error::KioskError;
pub use frame::Frame;
pub use frame::PixelFormat;
pub use image::Backing;
pub use image::Image;
pub use image::ReleaseAction;
pub use keys::KeyboardKeys;
pub use kiosk::Commands;
pub use kiosk::KioskState;
pub use kiosk::PollEffect;
pub use kiosk::State;
pub use kiosk::WorkerDirective;
pub use render::Canvas;
pub use render::DrawCommand;
pub use render::SceneLayout;
pub use slot::WebcamFrame;
pub use texture::DisplayTexture;
