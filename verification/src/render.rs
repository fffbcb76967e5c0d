//! The waveform renderer: fills an RGBA frame buffer so that each column shows
//! its sample value as a single teal pixel at the matching row, on black.
//!
//! Two axis conventions exist, one per sample-source variant:
//! - file variant (`u8` samples): the axis is inverted, row 0 (top) stands for
//!   value `height - 1` and the bottom row for value 0;
//! - centered variant (`i16` samples): rows are re-centered so that row
//!   `CENTER_ROW` stands for value 0, rows above it for negative values.

use vstd::arithmetic::div_mod::lemma_fundamental_div_mod_converse;
use vstd::pervasive::VecAdditionalExecFns;
use vstd::prelude::*;

verus! {

use crate::HEIGHT;
use crate::WIDTH;

/// Row that stands for sample value 0 in the centered variant.
pub const CENTER_ROW: i16 = 120;

/// Colour of a highlighted pixel: opaque teal, as RGBA bytes.
pub open spec fn teal() -> Seq<u8> {
    seq![0u8, 0x7fu8, 0x7fu8, 0xffu8]
}

/// Colour of a background pixel: opaque black, as RGBA bytes.
pub open spec fn black() -> Seq<u8> {
    seq![0u8, 0u8, 0u8, 0xffu8]
}

/// File-variant highlight condition: the pixel at (`x`, `row`) is highlighted
/// when the column's sample names that row on the inverted axis.
pub open spec fn file_highlight(samples: Seq<u8>, height: int, x: int, row: int) -> bool {
    samples[x] == height - 1 - row
}

/// Centered-variant highlight condition: the pixel at (`x`, `row`) is
/// highlighted when the column's sample names that row on the axis centered at
/// `CENTER_ROW`.
pub open spec fn centered_highlight(samples: Seq<i16>, x: int, row: int) -> bool {
    samples[x] == row - CENTER_ROW
}

/// The byte at channel `c` of the file-variant pixel at (`x`, `row`).
pub open spec fn file_pixel_byte(samples: Seq<u8>, height: int, x: int, row: int, c: int) -> u8 {
    if file_highlight(samples, height, x, row) {
        teal()[c]
    } else {
        black()[c]
    }
}

/// The byte at channel `c` of the centered-variant pixel at (`x`, `row`).
pub open spec fn centered_pixel_byte(samples: Seq<i16>, x: int, row: int, c: int) -> u8 {
    if centered_highlight(samples, x, row) {
        teal()[c]
    } else {
        black()[c]
    }
}

/// The fully rendered file-variant frame: `height` rows of `width` RGBA
/// pixels, row-major, 4 bytes per pixel.
pub open spec fn file_frame(samples: Seq<u8>, width: int, height: int) -> Seq<u8> {
    Seq::new(
        (width * height * 4) as nat,
        |k: int| file_pixel_byte(samples, height, (k / 4) % width, (k / 4) / width, k % 4),
    )
}

/// The fully rendered centered-variant frame: `height` rows of `width` RGBA
/// pixels, row-major, 4 bytes per pixel.
pub open spec fn centered_frame(samples: Seq<i16>, width: int, height: int) -> Seq<u8> {
    Seq::new(
        (width * height * 4) as nat,
        |k: int| centered_pixel_byte(samples, (k / 4) % width, (k / 4) / width, k % 4),
    )
}

/// Fills `frame` with the file-variant scatter image of `samples`: every pixel
/// is opaque black except, in each column whose sample lies on the axis, the
/// one pixel whose row the sample names, which is opaque teal.
pub fn render_file(samples: &Vec<u8>, width: usize, height: usize, frame: &mut Vec<u8>)
    requires
        samples@.len() == width,
        1 <= width,
        1 <= height <= 256,
        old(frame)@.len() == width * height * 4,
    ensures
        final(frame)@ == file_frame(samples@, width as int, height as int),
{
    let flen: usize = frame.len();
    let n_pixels: usize = flen / 4;
    proof {
        lemma_fundamental_div_mod_converse(flen as int, 4, width as int * height as int, 0);
    }
    let mut i: usize = 0;
    while i < n_pixels
        invariant
            samples@.len() == width,
            1 <= width,
            1 <= height <= 256,
            frame@.len() == flen,
            n_pixels == width * height,
            4 * n_pixels == flen,
            i <= n_pixels,
            forall|k: int|
                0 <= k < 4 * i ==> frame@[k] == file_frame(
                    samples@,
                    width as int,
                    height as int,
                )[k],
        decreases n_pixels - i,
    {
        let x: usize = i % width;
        let row: usize = i / width;
        proof {
            let ii = i as int;
            let w = width as int;
            let h = height as int;
            assert(ii / w < h) by (nonlinear_arith)
                requires
                    0 <= ii,
                    1 <= w,
                    ii < w * h,
            ;
        }
        let y: u8 = ((height - 1) - row) as u8;
        let hit: bool = y == samples[x];
        let g: u8 = if hit {
            0x7f
        } else {
            0x00
        };
        let base: usize = 4 * i;
        frame.set(base, 0x00);
        frame.set(base + 1, g);
        frame.set(base + 2, g);
        frame.set(base + 3, 0xff);
        proof {
            let ii = i as int;
            let w = width as int;
            let h = height as int;
            let ff = file_frame(samples@, w, h);
            assert(hit == file_highlight(samples@, h, ii % w, ii / w));
            assert forall|k: int| 4 * ii <= k < 4 * ii + 4 implies frame@[k] == ff[k] by {
                lemma_fundamental_div_mod_converse(k, 4, ii, k - 4 * ii);
            }
        }
        i = i + 1;
    }
    proof {
        assert(frame@ =~= file_frame(samples@, width as int, height as int));
    }
}

/// Fills `frame` with the centered-variant scatter image of `samples`: every
/// pixel is opaque black except, in each column whose sample lies on the axis,
/// the one pixel whose row the sample names, which is opaque teal.
pub fn render_centered(samples: &Vec<i16>, width: usize, height: usize, frame: &mut Vec<u8>)
    requires
        samples@.len() == width,
        1 <= width,
        1 <= height <= 256,
        old(frame)@.len() == width * height * 4,
    ensures
        final(frame)@ == centered_frame(samples@, width as int, height as int),
{
    let flen: usize = frame.len();
    let n_pixels: usize = flen / 4;
    proof {
        lemma_fundamental_div_mod_converse(flen as int, 4, width as int * height as int, 0);
    }
    let mut i: usize = 0;
    while i < n_pixels
        invariant
            samples@.len() == width,
            1 <= width,
            1 <= height <= 256,
            frame@.len() == flen,
            n_pixels == width * height,
            4 * n_pixels == flen,
            i <= n_pixels,
            forall|k: int|
                0 <= k < 4 * i ==> frame@[k] == centered_frame(
                    samples@,
                    width as int,
                    height as int,
                )[k],
        decreases n_pixels - i,
    {
        let x: usize = i % width;
        let row: usize = i / width;
        proof {
            let ii = i as int;
            let w = width as int;
            let h = height as int;
            assert(ii / w < h) by (nonlinear_arith)
                requires
                    0 <= ii,
                    1 <= w,
                    ii < w * h,
            ;
        }
        let y: i16 = (row as i16) - CENTER_ROW;
        let hit: bool = y == samples[x];
        let g: u8 = if hit {
            0x7f
        } else {
            0x00
        };
        let base: usize = 4 * i;
        frame.set(base, 0x00);
        frame.set(base + 1, g);
        frame.set(base + 2, g);
        frame.set(base + 3, 0xff);
        proof {
            let ii = i as int;
            let w = width as int;
            let h = height as int;
            let cf = centered_frame(samples@, w, h);
            assert(hit == centered_highlight(samples@, ii % w, ii / w));
            assert forall|k: int| 4 * ii <= k < 4 * ii + 4 implies frame@[k] == cf[k] by {
                lemma_fundamental_div_mod_converse(k, 4, ii, k - 4 * ii);
            }
        }
        i = i + 1;
    }
    proof {
        assert(frame@ =~= centered_frame(samples@, width as int, height as int));
    }
}

/// Law: in a rendered file-variant frame, the 4 bytes of the pixel at
/// (`x`, `row`) are teal exactly when the pixel is highlighted, and black
/// otherwise.
pub proof fn lemma_file_frame_pixel(samples: Seq<u8>, width: int, height: int, x: int, row: int)
    requires
        1 <= width,
        1 <= height,
        0 <= x < width,
        0 <= row < height,
    ensures
        file_frame(samples, width, height).subrange(
            4 * (row * width + x),
            4 * (row * width + x) + 4,
        ) == (if file_highlight(samples, height, x, row) {
            teal()
        } else {
            black()
        }),
{
    let i = row * width + x;
    assert(0 <= i && i < width * height) by (nonlinear_arith)
        requires
            1 <= width,
            0 <= x < width,
            0 <= row < height,
            i == row * width + x,
    ;
    lemma_fundamental_div_mod_converse(i, width, row, x);
    let ff = file_frame(samples, width, height);
    let sub = ff.subrange(4 * i, 4 * i + 4);
    assert forall|c: int| 0 <= c < 4 implies sub[c] == file_pixel_byte(
        samples,
        height,
        x,
        row,
        c,
    ) by {
        lemma_fundamental_div_mod_converse(4 * i + c, 4, i, c);
    }
    if file_highlight(samples, height, x, row) {
        assert(sub =~= teal());
    } else {
        assert(sub =~= black());
    }
}

/// Law: in a rendered centered-variant frame, the 4 bytes of the pixel at
/// (`x`, `row`) are teal exactly when the pixel is highlighted, and black
/// otherwise.
pub proof fn lemma_centered_frame_pixel(
    samples: Seq<i16>,
    width: int,
    height: int,
    x: int,
    row: int,
)
    requires
        1 <= width,
        1 <= height,
        0 <= x < width,
        0 <= row < height,
    ensures
        centered_frame(samples, width, height).subrange(
            4 * (row * width + x),
            4 * (row * width + x) + 4,
        ) == (if centered_highlight(samples, x, row) {
            teal()
        } else {
            black()
        }),
{
    let i = row * width + x;
    assert(0 <= i && i < width * height) by (nonlinear_arith)
        requires
            1 <= width,
            0 <= x < width,
            0 <= row < height,
            i == row * width + x,
    ;
    lemma_fundamental_div_mod_converse(i, width, row, x);
    let cf = centered_frame(samples, width, height);
    let sub = cf.subrange(4 * i, 4 * i + 4);
    assert forall|c: int| 0 <= c < 4 implies sub[c] == centered_pixel_byte(samples, x, row, c) by {
        lemma_fundamental_div_mod_converse(4 * i + c, 4, i, c);
    }
    if centered_highlight(samples, x, row) {
        assert(sub =~= teal());
    } else {
        assert(sub =~= black());
    }
}

/// Law: for each column of the file variant, exactly one row in
/// `[0, height)` is highlighted when the sample lies on the axis's range
/// `[0, height - 1]`, namely row `height - 1 - samples[x]`; when the sample
/// lies outside that range, no row of the column is highlighted.
pub proof fn lemma_file_column_highlight(samples: Seq<u8>, height: int, x: int)
    requires
        0 <= x < samples.len(),
        1 <= height,
    ensures
        samples[x] < height ==> {
            &&& 0 <= height - 1 - samples[x] < height
            &&& forall|row: int|
                0 <= row < height ==> (file_highlight(samples, height, x, row) <==> row == height
                    - 1 - samples[x])
        },
        samples[x] >= height ==> forall|row: int|
            0 <= row < height ==> !file_highlight(samples, height, x, row),
{
}

/// Law: for each column of the centered variant, exactly one row in
/// `[0, height)` is highlighted when the sample lies on the axis's range
/// `[-CENTER_ROW, height - 1 - CENTER_ROW]`, namely row
/// `samples[x] + CENTER_ROW`; when the sample lies outside that range, no row
/// of the column is highlighted.
pub proof fn lemma_centered_column_highlight(samples: Seq<i16>, height: int, x: int)
    requires
        0 <= x < samples.len(),
        1 <= height,
    ensures
        -CENTER_ROW <= samples[x] < height - CENTER_ROW ==> {
            &&& 0 <= samples[x] + CENTER_ROW < height
            &&& forall|row: int|
                0 <= row < height ==> (centered_highlight(samples, x, row) <==> row == samples[x]
                    + CENTER_ROW)
        },
        (samples[x] < -CENTER_ROW || samples[x] >= height - CENTER_ROW) ==> forall|row: int|
            0 <= row < height ==> !centered_highlight(samples, x, row),
{
}

/// Law: rendering is deterministic and ignores the buffer's previous
/// contents — the file-variant frame is a function of the samples and the
/// dimensions alone, so two renders of the same unchanged samples, each into a
/// freshly zeroed buffer or not, leave byte-identical frames.
pub proof fn lemma_file_render_deterministic(
    samples: Seq<u8>,
    width: int,
    height: int,
    frame1: Seq<u8>,
    frame2: Seq<u8>,
)
    requires
        frame1 == file_frame(samples, width, height),
        frame2 == file_frame(samples, width, height),
    ensures
        frame1 == frame2,
{
}

/// Law: rendering is deterministic and ignores the buffer's previous
/// contents — the centered-variant frame is a function of the samples and the
/// dimensions alone, so two renders of the same unchanged samples, each into a
/// freshly zeroed buffer or not, leave byte-identical frames.
pub proof fn lemma_centered_render_deterministic(
    samples: Seq<i16>,
    width: int,
    height: int,
    frame1: Seq<u8>,
    frame2: Seq<u8>,
)
    requires
        frame1 == centered_frame(samples, width, height),
        frame2 == centered_frame(samples, width, height),
    ensures
        frame1 == frame2,
{
}

/// Law: boundary samples land on the extreme rows of the file variant's
/// inverted axis — the largest on-axis value, `height - 1`, is drawn on row 0
/// (top), and value 0 is drawn on row `height - 1` (bottom).
pub proof fn lemma_file_boundary(samples: Seq<u8>, height: int, x: int)
    requires
        0 <= x < samples.len(),
        1 <= height,
    ensures
        file_highlight(samples, height, x, 0) <==> samples[x] == height - 1,
        file_highlight(samples, height, x, height - 1) <==> samples[x] == 0,
{
}

/// Law: boundary samples land on the extreme rows of the centered variant's
/// axis — the smallest on-axis value, `-CENTER_ROW`, is drawn on row 0 (top),
/// and value `height - 1 - CENTER_ROW` on row `height - 1` (bottom).
pub proof fn lemma_centered_boundary(samples: Seq<i16>, height: int, x: int)
    requires
        0 <= x < samples.len(),
        1 <= height,
    ensures
        centered_highlight(samples, x, 0) <==> samples[x] == -CENTER_ROW,
        centered_highlight(samples, x, height - 1) <==> samples[x] == height - 1 - CENTER_ROW,
{
}

/// File-variant display: the sample array captured at startup, one `u8`
/// sample per column of the fixed-size window.
pub struct WaveformDisplay {
    values: Vec<u8>,
}

impl View for WaveformDisplay {
    type V = Seq<u8>;

    closed spec fn view(&self) -> Seq<u8> {
        self.values@
    }
}

impl WaveformDisplay {
    /// The display is well-formed when it holds one sample per column.
    pub open spec fn wf(&self) -> bool {
        self@.len() == WIDTH
    }

    /// Captures the sample array; the buffer must hold exactly one sample per
    /// column.
    pub fn new(buffer: Vec<u8>) -> (display: Self)
        requires
            buffer@.len() == WIDTH,
        ensures
            display@ == buffer@,
            display.wf(),
    {
        WaveformDisplay { values: buffer }
    }

    /// Renders the scatter image of the captured samples into `frame`, a
    /// `WIDTH` x `HEIGHT` row-major RGBA buffer.
    pub fn draw(&self, frame: &mut Vec<u8>)
        requires
            self.wf(),
            old(frame)@.len() == WIDTH * HEIGHT * 4,
        ensures
            final(frame)@ == file_frame(self@, WIDTH as int, HEIGHT as int),
    {
        render_file(&self.values, WIDTH, HEIGHT, frame)
    }
}

/// Centered-variant display: the sample array captured at startup, one `i16`
/// sample per column of the fixed-size window.
pub struct CenteredWaveformDisplay {
    values: Vec<i16>,
}

impl View for CenteredWaveformDisplay {
    type V = Seq<i16>;

    closed spec fn view(&self) -> Seq<i16> {
        self.values@
    }
}

impl CenteredWaveformDisplay {
    /// The display is well-formed when it holds one sample per column.
    pub open spec fn wf(&self) -> bool {
        self@.len() == WIDTH
    }

    /// Captures the sample array; the buffer must hold exactly one sample per
    /// column.
    pub fn new(buffer: Vec<i16>) -> (display: Self)
        requires
            buffer@.len() == WIDTH,
        ensures
            display@ == buffer@,
            display.wf(),
    {
        CenteredWaveformDisplay { values: buffer }
    }

    /// Renders the scatter image of the captured samples into `frame`, a
    /// `WIDTH` x `HEIGHT` row-major RGBA buffer.
    pub fn draw(&self, frame: &mut Vec<u8>)
        requires
            self.wf(),
            old(frame)@.len() == WIDTH * HEIGHT * 4,
        ensures
            final(frame)@ == centered_frame(self@, WIDTH as int, HEIGHT as int),
    {
        render_centered(&self.values, WIDTH, HEIGHT, frame)
    }
}

} // verus!
