//! The view mapper: from a byte buffer and view settings to the pixels of a
//! canvas.

use vstd::prelude::*;
use crate::color::{Gradients, TRANSPARENT};
use crate::settings::BinocleSettings;

verus! {

/// The byte column that a pixel shows: its place in the canvas row, with the
/// magnification undone.
pub open spec fn cell_column(i: int, canvas_width: int, zoom: int) -> int {
    (i % canvas_width) / zoom
}

/// The byte row that a pixel shows: its canvas row, with the magnification
/// undone.
pub open spec fn cell_row(i: int, canvas_width: int, zoom: int) -> int {
    (i / canvas_width) / zoom
}

/// Where in the buffer the byte of column `x` in row `y` lies.
pub open spec fn buffer_index(settings: BinocleSettings, x: int, y: int) -> int {
    settings.base() + (y * settings.width + x) * settings.stride
}

/// The colour of pixel `i` of a canvas, counted row by row. A pixel to the
/// right of column `settings.width`, or whose byte would lie past the end
/// of the buffer, is transparent. Column `settings.width` itself is still
/// drawn, so a row shows one column more than its width.
pub open spec fn pixel_color(
    buffer: Seq<u8>,
    settings: BinocleSettings,
    gradients: &Gradients,
    canvas_width: int,
    i: int,
) -> Seq<u8> {
    let x = cell_column(i, canvas_width, settings.zoom as int);
    let y = cell_row(i, canvas_width, settings.zoom as int);
    let index = buffer_index(settings, x, y);
    if x > settings.width {
        TRANSPARENT@
    } else if index >= buffer.len() {
        TRANSPARENT@
    } else {
        settings.pixel_style.color(gradients, buffer[index])
    }
}

/// A frame after drawing: each whole pixel, four bytes, holds its colour;
/// bytes after the last whole pixel stay as they were.
pub open spec fn rendered(
    buffer: Seq<u8>,
    settings: BinocleSettings,
    gradients: &Gradients,
    canvas_width: int,
    before: Seq<u8>,
) -> Seq<u8> {
    Seq::new(
        before.len(),
        |k: int|
            if k < 4 * (before.len() / 4) {
                pixel_color(buffer, settings, gradients, canvas_width, k / 4)[k % 4]
            } else {
                before[k]
            },
    )
}

/// The parts of a buffer index only grow from one step of the sum to the
/// next, so that a part too large for the machine puts the index past the end
/// of every buffer.
proof fn lemma_index_bounds(settings: BinocleSettings, x: int, y: int)
    requires
        settings.wf(),
        x >= 0,
        y >= 0,
    ensures
        0 <= y * settings.width,
        y * settings.width + x <= (y * settings.width + x) * settings.stride,
        (y * settings.width + x) * settings.stride <= buffer_index(settings, x, y),
        settings.base() <= buffer_index(settings, x, y),
{
    let width = settings.width as int;
    let stride = settings.stride as int;
    assert(0 <= y * width) by (nonlinear_arith)
        requires
            y >= 0,
            width >= 1,
    ;
    let cell = y * width + x;
    assert(cell <= cell * stride) by (nonlinear_arith)
        requires
            cell >= 0,
            stride >= 1,
    ;
}

/// Drawing does not depend on what the frame held before: two frames of the
/// same length that agree after their last whole pixel come out byte for
/// byte the same. For frames of whole pixels, the same length is enough.
pub proof fn lemma_rendered_deterministic(
    buffer: Seq<u8>,
    settings: BinocleSettings,
    gradients: &Gradients,
    canvas_width: int,
    first: Seq<u8>,
    second: Seq<u8>,
)
    requires
        first.len() == second.len(),
        forall|k: int| 4 * (first.len() / 4) <= k < first.len() ==> first[k] == second[k],
    ensures
        rendered(buffer, settings, gradients, canvas_width, first) == rendered(
            buffer,
            settings,
            gradients,
            canvas_width,
            second,
        ),
{
}

/// Drawing twice gives what drawing once gives.
pub proof fn lemma_rendered_idempotent(
    buffer: Seq<u8>,
    settings: BinocleSettings,
    gradients: &Gradients,
    canvas_width: int,
    before: Seq<u8>,
)
    ensures
        rendered(
            buffer,
            settings,
            gradients,
            canvas_width,
            rendered(buffer, settings, gradients, canvas_width, before),
        ) == rendered(buffer, settings, gradients, canvas_width, before),
{
}

/// Where the view starts at or past the end of the buffer, every pixel is
/// transparent.
pub proof fn lemma_past_end_is_transparent(
    buffer: Seq<u8>,
    settings: BinocleSettings,
    gradients: &Gradients,
    canvas_width: int,
    i: int,
)
    requires
        settings.wf(),
        canvas_width >= 1,
        i >= 0,
        settings.base() >= buffer.len(),
    ensures
        pixel_color(buffer, settings, gradients, canvas_width, i) == TRANSPARENT@,
{
    let zoom = settings.zoom as int;
    let x = cell_column(i, canvas_width, zoom);
    let y = cell_row(i, canvas_width, zoom);
    lemma_cell_bounds(i, canvas_width, zoom);
    lemma_index_bounds(settings, x, y);
}

/// A pixel has four channels and is transparent exactly where it has no
/// byte to show: to the right of column `settings.width`, or past the end of
/// the buffer. Everywhere else it is fully opaque.
pub proof fn lemma_transparent_iff_no_byte(
    buffer: Seq<u8>,
    settings: BinocleSettings,
    gradients: &Gradients,
    canvas_width: int,
    i: int,
)
    ensures
        pixel_color(buffer, settings, gradients, canvas_width, i).len() == 4,
        pixel_color(buffer, settings, gradients, canvas_width, i) == TRANSPARENT@ <==> {
            let x = cell_column(i, canvas_width, settings.zoom as int);
            let y = cell_row(i, canvas_width, settings.zoom as int);
            x > settings.width || buffer_index(settings, x, y) >= buffer.len()
        },
        pixel_color(buffer, settings, gradients, canvas_width, i) != TRANSPARENT@
            ==> pixel_color(buffer, settings, gradients, canvas_width, i)[3] == 255,
{
    let x = cell_column(i, canvas_width, settings.zoom as int);
    let y = cell_row(i, canvas_width, settings.zoom as int);
    let index = buffer_index(settings, x, y);
    settings.pixel_style.lemma_opaque(gradients, buffer[index]);
    assert(TRANSPARENT@[3] == 0);
}

/// One column to the right lies `stride` bytes further on in the buffer, and
/// one row down lies `width` columns further on.
pub proof fn lemma_index_steps(settings: BinocleSettings, x: int, y: int)
    ensures
        buffer_index(settings, x + 1, y) == buffer_index(settings, x, y) + settings.stride,
        buffer_index(settings, x, y + 1) == buffer_index(settings, x + settings.width, y),
{
    let width = settings.width as int;
    let stride = settings.stride as int;
    assert((y * width + (x + 1)) * stride == (y * width + x) * stride + stride)
        by (nonlinear_arith);
    assert((y + 1) * width + x == y * width + (x + width)) by (nonlinear_arith);
}

/// Columns and rows of cells are counted from zero.
proof fn lemma_cell_bounds(i: int, canvas_width: int, zoom: int)
    requires
        i >= 0,
        canvas_width >= 1,
        zoom >= 1,
    ensures
        cell_column(i, canvas_width, zoom) >= 0,
        cell_row(i, canvas_width, zoom) >= 0,
{
    assert((i % canvas_width) / zoom >= 0 && (i / canvas_width) / zoom >= 0)
        by (nonlinear_arith)
        requires
            i >= 0,
            canvas_width >= 1,
            zoom >= 1,
    ;
}

/// The bytes to look at.
pub struct Binocle {
    buffer: Vec<u8>,
}

impl View for Binocle {
    type V = Seq<u8>;

    closed spec fn view(&self) -> Seq<u8> {
        self.buffer@
    }
}

impl Binocle {
    /// Takes the bytes to look at.
    pub fn new(buffer: Vec<u8>) -> (binocle: Binocle)
        ensures
            binocle@ == buffer@,
    {
        Binocle { buffer }
    }

    /// The number of bytes.
    pub fn len(&self) -> (len: usize)
        ensures
            len == self@.len(),
    {
        self.buffer.len()
    }

    /// Brings the state up to date before a frame. There is nothing to do:
    /// the bytes never change.
    pub fn update(&mut self)
        ensures
            *final(self) == *old(self),
    {
    }

    /// Finds the byte of column `x` in row `y`, if the buffer has it.
    fn locate(&self, settings: &BinocleSettings, x: usize, y: usize) -> (index: Option<usize>)
        requires
            settings.wf(),
        ensures
            index is Some <==> buffer_index(*settings, x as int, y as int) < self@.len(),
            index matches Some(k) ==> k == buffer_index(*settings, x as int, y as int),
    {
        proof {
            lemma_index_bounds(*settings, x as int, y as int);
        }
        let len: usize = self.buffer.len();
        let first: usize = match y.checked_mul(settings.width) {
            Some(first) => first,
            None => { return None; },
        };
        let cell: usize = match first.checked_add(x) {
            Some(cell) => cell,
            None => { return None; },
        };
        let scaled: usize = match cell.checked_mul(settings.stride) {
            Some(scaled) => scaled,
            None => { return None; },
        };
        let base: usize = match settings.offset.checked_add(settings.offset_fine) {
            Some(base) => base,
            None => { return None; },
        };
        match base.checked_add(scaled) {
            Some(index) => if index < len { Some(index) } else { None },
            None => None,
        }
    }

    /// Computes the colour of pixel `i`, counted row by row, of a canvas that
    /// is `canvas_width` pixels wide.
    pub fn pixel(
        &self,
        i: usize,
        canvas_width: usize,
        settings: &BinocleSettings,
        gradients: &Gradients,
    ) -> (color: [u8; 4])
        requires
            canvas_width >= 1,
            settings.wf(),
        ensures
            color@ == pixel_color(self@, *settings, gradients, canvas_width as int, i as int),
    {
        let x: usize = (i % canvas_width) / settings.zoom;
        let y: usize = (i / canvas_width) / settings.zoom;
        if x > settings.width {
            TRANSPARENT
        } else {
            match self.locate(settings, x, y) {
                None => TRANSPARENT,
                Some(index) => settings.pixel_style.map(gradients, self.buffer[index]),
            }
        }
    }

    /// Draws the buffer into a frame of RGBA pixels, four bytes each, row by
    /// row, for a canvas that is `canvas_width` pixels wide.
    pub fn draw(
        &self,
        frame: &mut [u8],
        canvas_width: usize,
        settings: &BinocleSettings,
        gradients: &Gradients,
    )
        requires
            canvas_width >= 1,
            settings.wf(),
        ensures
            final(frame)@ == rendered(
                self@,
                *settings,
                gradients,
                canvas_width as int,
                old(frame)@,
            ),
    {
        let pixels: usize = frame.len() / 4;
        let mut i: usize = 0;
        while i < pixels
            invariant
                frame@.len() <= usize::MAX,
                canvas_width >= 1,
                settings.wf(),
                pixels == old(frame)@.len() / 4,
                i <= pixels,
                frame@.len() == old(frame)@.len(),
                forall|k: int|
                    0 <= k < 4 * i ==> frame@[k] == #[trigger] rendered(
                        self@,
                        *settings,
                        gradients,
                        canvas_width as int,
                        old(frame)@,
                    )[k],
                forall|k: int| 4 * i <= k < frame@.len() ==> frame@[k] == old(frame)@[k],
            decreases pixels - i,
        {
            let color: [u8; 4] = self.pixel(i, canvas_width, settings, gradients);
            frame[4 * i] = color[0];
            frame[4 * i + 1] = color[1];
            frame[4 * i + 2] = color[2];
            frame[4 * i + 3] = color[3];
            i += 1;
        }
    }
}

} // verus!
