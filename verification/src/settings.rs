//! The view settings: how the bytes of the buffer are laid out on the canvas.

use vstd::prelude::*;
use crate::color::PixelStyle;

verus! {

/// Number of byte columns in a row of a fresh view.
pub const DEFAULT_WIDTH: usize = 804;

/// The state of the view. The control surface changes it between frames;
/// drawing only reads it.
#[derive(Clone, Copy, Debug, PartialEq, Eq)]
pub struct BinocleSettings {
    /// Side of the square of pixels that shows one byte; at least 1.
    pub zoom: usize,
    /// Number of byte columns in a row; at least 1.
    pub width: usize,
    /// Where in the buffer the first cell starts, coarse part.
    pub offset: usize,
    /// Where in the buffer the first cell starts, fine part, added to `offset`.
    pub offset_fine: usize,
    /// Number of bytes from one column to the next; at least 1.
    pub stride: usize,
    /// How bytes are turned into colours.
    pub pixel_style: PixelStyle,
    /// Length of the buffer, for display only.
    pub buffer_length: usize,
    /// Width of the canvas in pixels, for display only.
    pub canvas_width: usize,
}

impl BinocleSettings {
    /// Settings are valid when zoom, row width and stride are all positive.
    pub open spec fn wf(&self) -> bool {
        &&& self.zoom >= 1
        &&& self.width >= 1
        &&& self.stride >= 1
    }

    /// The byte at which the first cell of the view starts.
    pub open spec fn base(&self) -> int {
        self.offset + self.offset_fine
    }

    /// The settings of a fresh view: no magnification, rows of
    /// `DEFAULT_WIDTH` columns, starting at the first byte, one byte per
    /// column, in the colourful style.
    pub fn new(buffer_length: usize, canvas_width: usize) -> (settings: BinocleSettings)
        ensures
            settings == (BinocleSettings {
                zoom: 1,
                width: DEFAULT_WIDTH,
                offset: 0,
                offset_fine: 0,
                stride: 1,
                pixel_style: PixelStyle::Colorful,
                buffer_length,
                canvas_width,
            }),
            settings.wf(),
    {
        BinocleSettings {
            zoom: 1,
            width: DEFAULT_WIDTH,
            offset: 0,
            offset_fine: 0,
            stride: 1,
            pixel_style: PixelStyle::Colorful,
            buffer_length,
            canvas_width,
        }
    }

    /// Tells whether the settings are valid.
    pub fn is_valid(&self) -> (valid: bool)
        ensures
            valid == self.wf(),
    {
        self.zoom >= 1 && self.width >= 1 && self.stride >= 1
    }
}

} // verus!
