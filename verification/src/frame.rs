//! Camera frames as plain pixel buffers, and the fixed preprocessing
//! applied to every raw frame read from the capture backend: a horizontal
//! mirror flip, and (for preview frames) a blue/red channel reorder into
//! the display backend's expected order.

use vstd::prelude::*;

use crate::error::KioskError;

verus! {

/// Pixel layouts the display backend distinguishes. The capture path of
/// this system is fixed to `PIXELFORMAT_UNCOMPRESSED_R8G8B8`, 3 channels
/// of 8 bits each; the other layouts exist so a texture can state which
/// layout it was created with.
#[allow(non_camel_case_types)]
#[derive(Clone, Copy, Debug, PartialEq, Eq, Structural)]
pub enum PixelFormat {
    /// 8 bit per pixel (no alpha)
    PIXELFORMAT_UNCOMPRESSED_GRAYSCALE,
    /// 8*2 bpp (2 channels)
    PIXELFORMAT_UNCOMPRESSED_GRAY_ALPHA,
    /// 16 bpp
    PIXELFORMAT_UNCOMPRESSED_R5G6B5,
    /// 24 bpp
    PIXELFORMAT_UNCOMPRESSED_R8G8B8,
    /// 16 bpp (1 bit alpha)
    PIXELFORMAT_UNCOMPRESSED_R5G5B5A1,
    /// 16 bpp (4 bit alpha)
    PIXELFORMAT_UNCOMPRESSED_R4G4B4A4,
    /// 32 bpp
    PIXELFORMAT_UNCOMPRESSED_R8G8B8A8,
    /// 32 bpp (1 channel)
    PIXELFORMAT_UNCOMPRESSED_R32,
    /// 32*3 bpp (3 channels)
    PIXELFORMAT_UNCOMPRESSED_R32G32B32,
    /// 32*4 bpp (4 channels)
    PIXELFORMAT_UNCOMPRESSED_R32G32B32A32,
    /// 16 bpp (1 channel)
    PIXELFORMAT_UNCOMPRESSED_R16,
    /// 16*3 bpp (3 channels)
    PIXELFORMAT_UNCOMPRESSED_R16G16B16,
    /// 16*4 bpp (4 channels)
    PIXELFORMAT_UNCOMPRESSED_R16G16B16A16,
    /// 4 bpp (no alpha)
    PIXELFORMAT_COMPRESSED_DXT1_RGB,
    /// 4 bpp (1 bit alpha)
    PIXELFORMAT_COMPRESSED_DXT1_RGBA,
    /// 8 bpp
    PIXELFORMAT_COMPRESSED_DXT3_RGBA,
    /// 8 bpp
    PIXELFORMAT_COMPRESSED_DXT5_RGBA,
    /// 4 bpp
    PIXELFORMAT_COMPRESSED_ETC1_RGB,
    /// 4 bpp
    PIXELFORMAT_COMPRESSED_ETC2_RGB,
    /// 8 bpp
    PIXELFORMAT_COMPRESSED_ETC2_EAC_RGBA,
    /// 4 bpp
    PIXELFORMAT_COMPRESSED_PVRT_RGB,
    /// 4 bpp
    PIXELFORMAT_COMPRESSED_PVRT_RGBA,
    /// 8 bpp
    PIXELFORMAT_COMPRESSED_ASTC_4x4_RGBA,
    /// 2 bpp
    PIXELFORMAT_COMPRESSED_ASTC_8x8_RGBA,
}

/// One decoded camera frame: a row-major pixel buffer with its
/// dimensions and pixel layout. Immutable once published.
#[derive(Debug)]
pub struct Frame {
    pub width: u32,
    pub height: u32,
    pub format: PixelFormat,
    pub pixels: Vec<u8>,
}

impl Frame {
    /// A well-formed frame is in the fixed 3-channel 8-bit layout and
    /// holds exactly 3 bytes per pixel.
    pub open spec fn wf(self) -> bool {
        &&& self.format == PixelFormat::PIXELFORMAT_UNCOMPRESSED_R8G8B8
        &&& self.pixels@.len() == 3 * self.width * self.height
    }

    /// The byte of channel `k` of the pixel at `row`, `col`.
    pub open spec fn px(self, row: int, col: int, k: int) -> u8 {
        self.pixels@[(row * self.width + col) * 3 + k]
    }

    /// Two frames carry the same image: same dimensions, same layout,
    /// same pixel bytes.
    pub open spec fn eqv(self, other: Frame) -> bool {
        &&& other.width == self.width
        &&& other.height == self.height
        &&& other.format == self.format
        &&& other.pixels@ == self.pixels@
    }

    /// The placeholder frame the buffer slot starts with: no pixels at all.
    pub fn empty() -> (f: Frame)
        ensures
            f.width == 0,
            f.height == 0,
            f.format == PixelFormat::PIXELFORMAT_UNCOMPRESSED_R8G8B8,
            f.pixels@ == Seq::<u8>::empty(),
            f.wf(),
    {
        Frame {
            width: 0,
            height: 0,
            format: PixelFormat::PIXELFORMAT_UNCOMPRESSED_R8G8B8,
            pixels: Vec::new(),
        }
    }

    /// Builds a frame from plain values, accepting it only in the fixed
    /// pixel layout and only when the byte count matches the dimensions.
    pub fn new(width: u32, height: u32, format: PixelFormat, pixels: Vec<u8>) -> (r: Result<
        Frame,
        KioskError,
    >)
        ensures
            r matches Ok(f) ==> {
                &&& f.width == width
                &&& f.height == height
                &&& f.format == format
                &&& f.pixels@ == pixels@
                &&& f.wf()
            },
            r is Ok <==> format == PixelFormat::PIXELFORMAT_UNCOMPRESSED_R8G8B8
                && pixels@.len() == 3 * width * height,
            r is Err ==> r == Err::<Frame, KioskError>(KioskError::UnsupportedPixelFormat),
    {
        let ok_format = match format {
            PixelFormat::PIXELFORMAT_UNCOMPRESSED_R8G8B8 => true,
            _ => false,
        };
        proof {
            assert((width as int) * (height as int) < 0x10000000000000000 && 3 * ((width as int) * (
            height as int)) == 3 * width * height) by (nonlinear_arith)
                requires
                    width <= 0xffffffffu32,
                    height <= 0xffffffffu32,
            ;
        }
        let wh: u64 = (width as u64) * (height as u64);
        let expected: u128 = 3u128 * (wh as u128);
        if ok_format && pixels.len() as u128 == expected {
            Ok(Frame { width, height, format, pixels })
        } else {
            Err(KioskError::UnsupportedPixelFormat)
        }
    }

    /// A frame with no pixels: the backend's placeholder before the first
    /// successful read.
    pub fn is_empty(&self) -> (r: bool)
        ensures
            r == (self.width == 0 || self.height == 0),
    {
        self.width == 0 || self.height == 0
    }

    /// The frame mirrored around its vertical axis: the pixel at column
    /// `col` of the result is the input's pixel at column `width - 1 - col`
    /// of the same row, channels untouched.
    pub fn mirror_horizontal(&self) -> (r: Frame)
        requires
            self.wf(),
        ensures
            r.wf(),
            r.width == self.width,
            r.height == self.height,
            r.format == self.format,
            forall|row: int, col: int, k: int|
                0 <= row < self.height && 0 <= col < self.width && 0 <= k < 3 ==> #[trigger] r.px(
                    row,
                    col,
                    k,
                ) == self.px(row, self.width - 1 - col, k),
    {
        let w = self.width as usize;
        let h = self.height as usize;
        let len = self.pixels.len();
        let ghost wi = w as int;
        let mut out: Vec<u8> = Vec::new();
        let mut row: usize = 0;
        while row < h
            invariant
                self.wf(),
                w == self.width,
                h == self.height,
                len == self.pixels@.len(),
                wi == w as int,
                row <= h,
                out@.len() == 3 * ((row as int) * wi),
                forall|r2: int, c2: int, k: int|
                    0 <= r2 && 0 <= c2 < wi && 0 <= k < 3 && r2 * wi + c2 < (row as int) * wi
                        ==> #[trigger] out@[(r2 * wi + c2) * 3 + k] == self.px(r2, wi - 1 - c2, k),
            decreases h - row,
        {
            let mut col: usize = 0;
            while col < w
                invariant
                    self.wf(),
                    w == self.width,
                    h == self.height,
                    len == self.pixels@.len(),
                    wi == w as int,
                    row < h,
                    col <= w,
                    out@.len() == 3 * ((row as int) * wi + col as int),
                    forall|r2: int, c2: int, k: int|
                        0 <= r2 && 0 <= c2 < wi && 0 <= k < 3 && r2 * wi + c2 < (row as int) * wi
                            + col as int ==> #[trigger] out@[(r2 * wi + c2) * 3 + k] == self.px(
                            r2,
                            wi - 1 - c2,
                            k,
                        ),
                decreases w - col,
            {
                proof {
                    lemma_mirror_index(wi, h as int, row as int, col as int, len as int);
                }
                let src = (row * w + (w - 1 - col)) * 3;
                let ghost done = (row as int) * wi + col as int;
                out.push(self.pixels[src]);
                out.push(self.pixels[src + 1]);
                out.push(self.pixels[src + 2]);
                proof {
                    assert forall|r2: int, c2: int, k: int|
                        0 <= r2 && 0 <= c2 < wi && 0 <= k < 3 && r2 * wi + c2 < done + 1 implies #[trigger] out@[(
                    r2 * wi + c2) * 3 + k] == self.px(r2, wi - 1 - c2, k) by {
                        if r2 * wi + c2 == done {
                            lemma_cell_unique(wi, r2, c2, row as int, col as int);
                        }
                    }
                }
                col += 1;
            }
            proof {
                assert((row as int + 1) * wi == (row as int) * wi + wi) by (nonlinear_arith);
            }
            row += 1;
        }
        let r = Frame { width: self.width, height: self.height, format: self.format, pixels: out };
        proof {
            assert(3 * ((h as int) * wi) == 3 * wi * (h as int)) by (nonlinear_arith);
            assert forall|row2: int, col2: int, k: int|
                0 <= row2 < self.height && 0 <= col2 < self.width && 0 <= k < 3 implies #[trigger] r.px(
            row2, col2, k) == self.px(row2, wi - 1 - col2, k) by {
                lemma_cell_in_bounds(wi, h as int, row2, col2);
            }
        }
        r
    }

    /// The frame with the first and third channel of every pixel swapped:
    /// the reorder from the camera's blue-green-red byte order to the
    /// red-green-blue order the display backend uploads.
    pub fn bgr_to_rgb(&self) -> (r: Frame)
        requires
            self.wf(),
        ensures
            r.wf(),
            r.width == self.width,
            r.height == self.height,
            r.format == self.format,
            forall|row: int, col: int, k: int|
                0 <= row < self.height && 0 <= col < self.width && 0 <= k < 3 ==> #[trigger] r.px(
                    row,
                    col,
                    k,
                ) == self.px(row, col, 2 - k),
    {
        let ghost wi = self.width as int;
        let ghost hi = self.height as int;
        let len = self.pixels.len();
        proof {
            assert(0 <= wi * hi && 3 * (wi * hi) == 3 * wi * hi) by (nonlinear_arith)
                requires
                    wi == self.width as int,
                    hi == self.height as int,
                    0 <= wi,
                    0 <= hi,
            ;
            assert(wi * hi <= len as int);
        }
        let n: usize = (self.width as usize) * (self.height as usize);
        let mut out: Vec<u8> = Vec::new();
        let mut p: usize = 0;
        while p < n
            invariant
                self.wf(),
                wi == self.width as int,
                hi == self.height as int,
                n as int == wi * hi,
                len == self.pixels@.len(),
                3 * (n as int) == len,
                p <= n,
                out@.len() == 3 * p as int,
                forall|q: int, k: int|
                    0 <= q < p && 0 <= k < 3 ==> #[trigger] out@[q * 3 + k] == self.pixels@[q * 3
                        + (2 - k)],
            decreases n - p,
        {
            let base = p * 3;
            out.push(self.pixels[base + 2]);
            out.push(self.pixels[base + 1]);
            out.push(self.pixels[base]);
            proof {
                assert(out@.len() == 3 * (p as int + 1));
                assert forall|q: int, k: int| 0 <= q < p as int + 1 && 0 <= k < 3 implies #[trigger] out@[q
                    * 3 + k] == self.pixels@[q * 3 + (2 - k)] by {
                    if q == p as int {
                        assert(out@[q * 3 + k] == self.pixels@[q * 3 + (2 - k)]);
                    }
                }
            }
            p += 1;
        }
        let r = Frame { width: self.width, height: self.height, format: self.format, pixels: out };
        proof {
            assert forall|row: int, col: int, k: int|
                0 <= row < hi && 0 <= col < wi && 0 <= k < 3 implies #[trigger] r.px(row, col, k)
                == self.px(row, col, 2 - k) by {
                lemma_cell_in_bounds(wi, hi, row, col);
                let q = row * wi + col;
                assert(out@[q * 3 + k] == self.pixels@[q * 3 + (2 - k)]);
            }
        }
        r
    }
}

impl Clone for Frame {
    /// An exact copy: same dimensions, layout and pixel bytes.
    fn clone(&self) -> (r: Self)
        ensures
            self.eqv(r),
    {
        let mut pixels: Vec<u8> = Vec::new();
        let mut i: usize = 0;
        while i < self.pixels.len()
            invariant
                i <= self.pixels@.len(),
                pixels@ == self.pixels@.subrange(0, i as int),
            decreases self.pixels@.len() - i,
        {
            pixels.push(self.pixels[i]);
            i += 1;
            proof {
                assert(pixels@ =~= self.pixels@.subrange(0, i as int));
            }
        }
        proof {
            assert(pixels@ =~= self.pixels@);
        }
        Frame { width: self.width, height: self.height, format: self.format, pixels }
    }
}

/// A pixel's cell number `row * w + col` lies under `w * h`, so its three
/// bytes lie inside a well-formed buffer.
proof fn lemma_cell_in_bounds(w: int, h: int, row: int, col: int)
    requires
        0 <= row < h,
        0 <= col < w,
    ensures
        0 <= row * w + col,
        row * w + col < w * h,
        row * w + col < h * w,
        3 * (w * h) == 3 * w * h,
{
    assert(0 <= row * w + col && row * w + col < w * h && row * w + col < h * w && 3 * (w * h) == 3
        * w * h) by (nonlinear_arith)
        requires
            0 <= row < h,
            0 <= col < w,
    ;
}

/// Bounds for reading one mirrored pixel: the source cell and each of its
/// three bytes lie inside a buffer of `3 * w * h` bytes.
proof fn lemma_mirror_index(w: int, h: int, row: int, col: int, len: int)
    requires
        0 <= row < h,
        0 <= col < w,
        len == 3 * w * h,
    ensures
        0 <= row * w,
        row * w + col < h * w,
        0 <= row * w + (w - 1 - col) < w * h,
        w * h <= len,
        (row * w + (w - 1 - col)) * 3 + 2 < len,
{
    assert(0 <= row * w && row * w + col < h * w && 0 <= row * w + (w - 1 - col) < w * h && w * h
        <= 3 * w * h && (row * w + (w - 1 - col)) * 3 + 2 < 3 * w * h) by (nonlinear_arith)
        requires
            0 <= row < h,
            0 <= col < w,
    ;
}

/// Two row/column pairs with the same cell number are the same pair.
proof fn lemma_cell_unique(w: int, r1: int, c1: int, r2: int, c2: int)
    requires
        0 <= c1 < w,
        0 <= c2 < w,
        0 <= r1,
        0 <= r2,
        r1 * w + c1 == r2 * w + c2,
    ensures
        r1 == r2,
        c1 == c2,
{
    assert(r1 == r2 && c1 == c2) by (nonlinear_arith)
        requires
            0 <= c1 < w,
            0 <= c2 < w,
            0 <= r1,
            0 <= r2,
            r1 * w + c1 == r2 * w + c2,
    ;
}

/// The result of one preview-resolution read, made ready for display:
/// the raw frame is mirrored horizontally, then its channels are
/// reordered from the camera's blue-green-red byte order. `None` passes
/// through a cycle in which the backend returned no frame; a frame in an
/// unsupported layout is rejected.
pub fn get_new_display_frame(raw: Option<Frame>) -> (r: Result<Option<Frame>, KioskError>)
    ensures
        raw is None ==> r == Ok::<Option<Frame>, KioskError>(None),
        raw matches Some(f) ==> if f.wf() {
            r matches Ok(Some(g)) && {
                &&& g.wf()
                &&& g.width == f.width
                &&& g.height == f.height
                &&& g.format == f.format
                &&& forall|row: int, col: int, k: int|
                    0 <= row < f.height && 0 <= col < f.width && 0 <= k < 3 ==> #[trigger] g.px(
                        row,
                        col,
                        k,
                    ) == f.px(row, f.width - 1 - col, 2 - k)
            }
        } else {
            r == Err::<Option<Frame>, KioskError>(KioskError::UnsupportedPixelFormat)
        },
{
    match raw {
        None => Ok(None),
        Some(f) => {
            let ok_format = match f.format {
                PixelFormat::PIXELFORMAT_UNCOMPRESSED_R8G8B8 => true,
                _ => false,
            };
            proof {
                assert((f.width as int) * (f.height as int) < 0x10000000000000000 && 3 * ((
                f.width as int) * (f.height as int)) == 3 * f.width * f.height) by (nonlinear_arith)
                    requires
                        f.width <= 0xffffffffu32,
                        f.height <= 0xffffffffu32,
                ;
            }
            let wh: u64 = (f.width as u64) * (f.height as u64);
            let expected: u128 = 3u128 * (wh as u128);
            if !(ok_format && f.pixels.len() as u128 == expected) {
                return Err(KioskError::UnsupportedPixelFormat);
            }
            let mirrored = f.mirror_horizontal();
            let g = mirrored.bgr_to_rgb();
            proof {
                assert forall|row: int, col: int, k: int|
                    0 <= row < f.height && 0 <= col < f.width && 0 <= k < 3 implies #[trigger] g.px(
                row, col, k) == f.px(row, f.width - 1 - col, 2 - k) by {
                    assert(g.px(row, col, k) == mirrored.px(row, col, 2 - k));
                    assert(mirrored.px(row, col, 2 - k) == f.px(row, f.width - 1 - col, 2 - k));
                }
            }
            Ok(Some(g))
        },
    }
}

/// The result of one high-resolution capture read, made ready for
/// presentation: mirrored horizontally only — the channel reorder is not
/// applied on the capture-on-demand path.
pub fn get_new_record_frame(raw: Option<Frame>) -> (r: Result<Option<Frame>, KioskError>)
    ensures
        raw is None ==> r == Ok::<Option<Frame>, KioskError>(None),
        raw matches Some(f) ==> if f.wf() {
            r matches Ok(Some(g)) && {
                &&& g.wf()
                &&& g.width == f.width
                &&& g.height == f.height
                &&& g.format == f.format
                &&& forall|row: int, col: int, k: int|
                    0 <= row < f.height && 0 <= col < f.width && 0 <= k < 3 ==> #[trigger] g.px(
                        row,
                        col,
                        k,
                    ) == f.px(row, f.width - 1 - col, k)
            }
        } else {
            r == Err::<Option<Frame>, KioskError>(KioskError::UnsupportedPixelFormat)
        },
{
    match raw {
        None => Ok(None),
        Some(f) => {
            let ok_format = match f.format {
                PixelFormat::PIXELFORMAT_UNCOMPRESSED_R8G8B8 => true,
                _ => false,
            };
            proof {
                assert((f.width as int) * (f.height as int) < 0x10000000000000000 && 3 * ((
                f.width as int) * (f.height as int)) == 3 * f.width * f.height) by (nonlinear_arith)
                    requires
                        f.width <= 0xffffffffu32,
                        f.height <= 0xffffffffu32,
                ;
            }
            let wh: u64 = (f.width as u64) * (f.height as u64);
            let expected: u128 = 3u128 * (wh as u128);
            if !(ok_format && f.pixels.len() as u128 == expected) {
                return Err(KioskError::UnsupportedPixelFormat);
            }
            Ok(Some(f.mirror_horizontal()))
        },
    }
}

} // verus!
