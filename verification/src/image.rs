//! The image half of the image/texture resource bridge.
//!
//! A decoded image's backing memory is owned in one of two ways: either
//! this system owns the pixel bytes outright (they were copied out of
//! the capture backend's buffer), or the bytes live in a buffer object
//! of an outside allocator, named here only by a handle (for example an
//! encoded file decoded by the display backend). Each owner has its own
//! teardown, and invoking the wrong one corrupts memory; the single
//! `release` entry point dispatches to the correct one by tag, so no
//! caller ever chooses a teardown path by hand.

use vstd::prelude::*;

use crate::error::KioskError;
use crate::frame::Frame;
use crate::frame::PixelFormat;

verus! {

/// Who owns an image's backing memory.
pub enum Backing {
    /// Pixel bytes owned by this system; dropping them frees them.
    Owned { pixels: Vec<u8> },
    /// Memory owned by an outside allocator; `handle` names the buffer
    /// object that allocator must tear down.
    Borrowed { handle: u64 },
}

/// A decoded image ready to become a display texture: its dimensions and
/// pixel layout, plus the tag saying who owns the backing memory.
pub struct Image {
    pub width: u32,
    pub height: u32,
    pub format: PixelFormat,
    pub backing: Backing,
}

/// The one teardown a released image requires of its caller.
pub enum ReleaseAction {
    /// The bytes were owned by this system and are gone with the image;
    /// there is nothing further to do.
    Dropped,
    /// The backing memory belongs to an outside allocator: the caller
    /// must tear down the buffer object this handle names, exactly once,
    /// through that allocator and no other.
    FreeExternal { handle: u64 },
}

impl Image {
    /// An image over bytes this system owns, taken from a decoded camera
    /// frame. The frame's pixel buffer moves into the image unchanged.
    pub fn from_frame(frame: Frame) -> (img: Image)
        requires
            frame.wf(),
        ensures
            img.width == frame.width,
            img.height == frame.height,
            img.format == frame.format,
            img.backing matches Backing::Owned { pixels } && pixels@ == frame.pixels@,
    {
        Image {
            width: frame.width,
            height: frame.height,
            format: frame.format,
            backing: Backing::Owned { pixels: frame.pixels },
        }
    }

    /// An image whose bytes stay with an outside allocator, for example
    /// one decoded from an encoded file by the display backend. The
    /// caller passes the dimensions the decoder reported and the handle
    /// naming the decoder's buffer object.
    pub fn borrowed(width: u32, height: u32, format: PixelFormat, handle: u64) -> (img: Image)
        ensures
            img.width == width,
            img.height == height,
            img.format == format,
            img.backing == (Backing::Borrowed { handle }),
    {
        Image { width, height, format, backing: Backing::Borrowed { handle } }
    }

    /// Releases the image, exactly once: consuming it here makes a second
    /// release unreachable. The returned action is the one teardown the
    /// image's owner requires — never the other owner's.
    pub fn release(self) -> (r: ReleaseAction)
        ensures
            self.backing matches Backing::Owned { .. } ==> r == ReleaseAction::Dropped,
            self.backing matches Backing::Borrowed { handle } ==> r == (ReleaseAction::FreeExternal {
                handle,
            }),
    {
        match self.backing {
            Backing::Owned { pixels: _ } => ReleaseAction::Dropped,
            Backing::Borrowed { handle } => ReleaseAction::FreeExternal { handle },
        }
    }
}

} // verus!
