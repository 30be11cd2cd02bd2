//! The texture half of the image/texture resource bridge.
//!
//! A `DisplayTexture` stands for one GPU-resident image resource. The
//! GPU memory behind it must be freed exactly once: `release` consumes
//! the texture by value, so a second release of the same texture does
//! not type-check. In-place updates from a new frame never reallocate
//! and never change the texture's reported dimensions; an update with
//! mismatched dimensions is rejected, not silently truncated.

use vstd::prelude::*;

use crate::error::KioskError;
use crate::frame::Frame;
use crate::frame::PixelFormat;
use crate::image::Backing;
use crate::image::Image;

verus! {

/// A GPU-resident image resource: the backend's opaque id, the
/// dimensions and layout it was created with, and (as a ghost mirror)
/// the pixel bytes most recently uploaded into it.
pub struct DisplayTexture {
    pub id: u32,
    pub width: u32,
    pub height: u32,
    pub format: PixelFormat,
    pub contents: Ghost<Seq<u8>>,
}

impl DisplayTexture {
    /// A new texture sized to the given frame, with the frame's pixels
    /// as its first upload. The caller passes the id under which the
    /// display backend allocated the GPU resource.
    pub fn from_frame(frame: &Frame, id: u32) -> (t: DisplayTexture)
        requires
            frame.wf(),
        ensures
            t.id == id,
            t.width == frame.width,
            t.height == frame.height,
            t.format == frame.format,
            t.contents@ == frame.pixels@,
    {
        DisplayTexture {
            id,
            width: frame.width,
            height: frame.height,
            format: frame.format,
            contents: Ghost(frame.pixels@),
        }
    }

    /// A new texture sized to the given image. When this system owns the
    /// image's bytes, they are the texture's first upload; for a
    /// borrowed backing the upload is whatever the outside allocator
    /// holds, and only the dimensions are stated.
    pub fn from_image(image: &Image, id: u32) -> (t: DisplayTexture)
        ensures
            t.id == id,
            t.width == image.width,
            t.height == image.height,
            t.format == image.format,
            image.backing matches Backing::Owned { pixels } ==> t.contents@ == pixels@,
    {
        match &image.backing {
            Backing::Owned { pixels } => DisplayTexture {
                id,
                width: image.width,
                height: image.height,
                format: image.format,
                contents: Ghost(pixels@),
            },
            Backing::Borrowed { handle: _ } => DisplayTexture {
                id,
                width: image.width,
                height: image.height,
                format: image.format,
                contents: Ghost(Seq::empty()),
            },
        }
    }

    /// Re-uploads pixel data into the existing texture without
    /// reallocating. The reported id, dimensions and layout never
    /// change, whatever the pixel contents become. An empty frame is a
    /// no-op; a frame whose dimensions or layout differ from the
    /// texture's is rejected unchanged.
    pub fn update(&mut self, frame: &Frame) -> (r: Result<(), KioskError>)
        ensures
            final(self).id == old(self).id,
            final(self).width == old(self).width,
            final(self).height == old(self).height,
            final(self).format == old(self).format,
            (frame.width == 0 || frame.height == 0) ==> r is Ok && *final(self) == *old(self),
            (frame.width != 0 && frame.height != 0) ==> if frame.width == old(self).width
                && frame.height == old(self).height && frame.format == old(self).format {
                r is Ok && final(self).contents@ == frame.pixels@
            } else {
                r == Err::<(), KioskError>(KioskError::DimensionMismatch) && *final(self) == *old(
                    self,
                )
            },
    {
        if frame.width == 0 || frame.height == 0 {
            return Ok(());
        }
        if frame.width == self.width && frame.height == self.height && frame.format
            == self.format {
            self.contents = Ghost(frame.pixels@);
            Ok(())
        } else {
            Err(KioskError::DimensionMismatch)
        }
    }

    /// Releases the texture's GPU memory, exactly once: the texture is
    /// consumed, so no second release of it can be written. The returned
    /// id names the GPU resource the display backend must now destroy.
    pub fn release(self) -> (id: u32)
        ensures
            id == self.id,
    {
        self.id
    }
}

} // verus!
