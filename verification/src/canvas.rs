//! A rectangular pixel buffer and its serialization to the plain-text
//! PPM image format.

use vstd::prelude::*;
use vstd::string::StringExecFns;

use crate::color::{dec_seq, rgb_chars, RGBAColor};

verus! {

/// A grid of pixels addressed by `(row, column)`.
pub struct Canvas {
    pub width: usize,
    pub height: usize,
    pub pixels: Vec<Vec<RGBAColor>>,
}

impl View for Canvas {
    type V = Seq<Seq<RGBAColor>>;

    open spec fn view(&self) -> Seq<Seq<RGBAColor>> {
        Seq::new(self.pixels@.len(), |i: int| self.pixels@[i]@)
    }
}

impl Canvas {
    /// The grid really is `height` rows of `width` pixels each.
    pub open spec fn wf(&self) -> bool {
        &&& self@.len() == self.height
        &&& forall|r: int| 0 <= r < self@.len() ==> (#[trigger] self@[r]).len() == self.width
    }
}

/// One row of pixels as PPM text. Pixels are rendered `"red green blue"`
/// and separated by single spaces, except that a separator grows into a
/// line break whenever the line so far plus the next pixel's text and its
/// separator would run past 70 characters. The pair carries the text
/// accumulated over the first `i` pixels together with the length of its
/// current (last) line, counting one trailing separator per pixel.
pub open spec fn row_chars_prefix(row: Seq<RGBAColor>, i: int) -> (Seq<char>, int)
    decreases i,
{
    if i <= 0 {
        (Seq::<char>::empty(), 0int)
    } else {
        let (s, cnt) = row_chars_prefix(row, i - 1);
        let t = rgb_chars(row[i - 1]);
        let l = t.len() + 1;
        if cnt == 0 {
            (s + t, l as int)
        } else if cnt + l > 70 {
            (s + seq!['\n'] + t, l as int)
        } else {
            (s + seq![' '] + t, cnt + l)
        }
    }
}

/// A whole row of pixels as PPM text, closed by a newline.
pub open spec fn row_chars(row: Seq<RGBAColor>) -> Seq<char> {
    row_chars_prefix(row, row.len() as int).0 + seq!['\n']
}

/// The first `i` rows of the grid as PPM text.
pub open spec fn rows_chars(pix: Seq<Seq<RGBAColor>>, i: int) -> Seq<char>
    decreases i,
{
    if i <= 0 {
        Seq::<char>::empty()
    } else {
        rows_chars(pix, i - 1) + row_chars(pix[i - 1])
    }
}

/// The PPM header: the magic number, the image dimensions and the
/// maximum channel value.
pub open spec fn ppm_header(width: int, height: int) -> Seq<char> {
    seq!['P', '3', '\n'] + dec_seq(width) + seq![' '] + dec_seq(height) + seq!['\n', '2', '5', '5', '\n']
}

/// The complete PPM rendering of a pixel grid.
pub open spec fn ppm_chars(pix: Seq<Seq<RGBAColor>>, width: int, height: int) -> Seq<char> {
    ppm_header(width, height) + rows_chars(pix, height)
}

/// The number of digits in the decimal rendering of an 8-bit value.
fn dec_len_u8(n: u8) -> (l: usize)
    ensures
        l == dec_seq(n as int).len(),
        l <= 3,
{
    proof {
        if n < 10 {
            assert(dec_seq(n as int).len() == 1);
        } else if n < 100 {
            assert(1 <= n as int / 10 < 10);
            assert(dec_seq(n as int / 10).len() == 1);
        } else {
            assert(10 <= n as int / 10 < 26);
            assert(1 <= (n as int / 10) / 10 < 10);
            assert(dec_seq((n as int / 10) / 10).len() == 1);
            assert(dec_seq(n as int / 10).len() == 2);
        }
    }
    if n < 10 {
        1
    } else if n < 100 {
        2
    } else {
        3
    }
}

/// Appends the `"red green blue"` rendering of a color to `s`.
fn append_rgb(s: &mut String, c: &RGBAColor)
    ensures
        final(s)@ == old(s)@ + rgb_chars(*c),
{
    crate::color::append_decimal(s, c.red as usize);
    proof {
        reveal_strlit(" ");
    }
    s.append(" ");
    crate::color::append_decimal(s, c.green as usize);
    s.append(" ");
    crate::color::append_decimal(s, c.blue as usize);
    assert(final(s)@ =~= old(s)@ + rgb_chars(*c));
}

impl Canvas {
    /// Builds a canvas of the given dimensions with every pixel set to
    /// the default (all-zero) color.
    pub fn with_size(height: usize, width: usize) -> (c: Self)
        ensures
            c.wf(),
            c.width == width,
            c.height == height,
            forall|r: int, k: int|
                0 <= r < height && 0 <= k < width ==> c@[r][k] == (RGBAColor { red: 0, green: 0, blue: 0, alpha: 0 }),
    {
        let mut row: Vec<RGBAColor> = Vec::new();
        while row.len() < width
            invariant
                row@.len() <= width,
                forall|k: int| 0 <= k < row@.len() ==> row@[k] == (RGBAColor { red: 0, green: 0, blue: 0, alpha: 0 }),
            decreases width - row.len(),
        {
            row.push(RGBAColor::default());
        }
        let mut pixels: Vec<Vec<RGBAColor>> = Vec::new();
        while pixels.len() < height
            invariant
                pixels@.len() <= height,
                row@.len() == width,
                forall|k: int| 0 <= k < row@.len() ==> row@[k] == (RGBAColor { red: 0, green: 0, blue: 0, alpha: 0 }),
                forall|r: int| 0 <= r < pixels@.len() ==> (#[trigger] pixels@[r])@ == row@,
            decreases height - pixels.len(),
        {
            pixels.push(row.clone());
        }
        Canvas { width, height, pixels }
    }

    /// A canvas of the same dimensions with every pixel set to `color`.
    pub fn background(self, color: RGBAColor) -> (c: Self)
        requires
            self.wf(),
        ensures
            c.wf(),
            c.width == self.width,
            c.height == self.height,
            forall|r: int, k: int|
                0 <= r < self.height && 0 <= k < self.width ==> c@[r][k] == color,
    {
        let mut row: Vec<RGBAColor> = Vec::new();
        while row.len() < self.width
            invariant
                row@.len() <= self.width,
                forall|k: int| 0 <= k < row@.len() ==> row@[k] == color,
            decreases self.width - row.len(),
        {
            row.push(color);
        }
        let mut pixels: Vec<Vec<RGBAColor>> = Vec::new();
        while pixels.len() < self.height
            invariant
                pixels@.len() <= self.height,
                row@.len() == self.width,
                forall|k: int| 0 <= k < row@.len() ==> row@[k] == color,
                forall|r: int| 0 <= r < pixels@.len() ==> (#[trigger] pixels@[r])@ == row@,
            decreases self.height - pixels.len(),
        {
            pixels.push(row.clone());
        }
        Canvas { width: self.width, height: self.height, pixels }
    }

    /// Overwrites the pixel at `(row, column)`.
    pub fn set_pixel_color(&mut self, pos: (usize, usize), color: RGBAColor)
        requires
            old(self).wf(),
            pos.0 < old(self).height,
            pos.1 < old(self).width,
        ensures
            final(self).wf(),
            final(self).width == old(self).width,
            final(self).height == old(self).height,
            final(self)@ == old(self)@.update(
                pos.0 as int,
                old(self)@[pos.0 as int].update(pos.1 as int, color),
            ),
    {
        proof {
            assert(self.pixels@.len() == self@.len());
            assert(self.pixels@[pos.0 as int]@ == self@[pos.0 as int]);
        }
        self.pixels[pos.0][pos.1] = color;
        assert(final(self)@ =~= old(self)@.update(
            pos.0 as int,
            old(self)@[pos.0 as int].update(pos.1 as int, color),
        ));
    }

    /// The pixel at `(row, column)`, or `None` when the position lies
    /// outside the canvas.
    pub fn get_color_at(&self, pos: (usize, usize)) -> (c: Option<&RGBAColor>)
        requires
            self.wf(),
        ensures
            pos.0 < self.height && pos.1 < self.width ==> c == Some(
                &self@[pos.0 as int][pos.1 as int],
            ),
            !(pos.0 < self.height && pos.1 < self.width) ==> c is None,
    {
        if pos.0 < self.height && pos.1 < self.width {
            proof {
                assert(self.pixels@.len() == self@.len());
                assert(self.pixels@[pos.0 as int]@ == self@[pos.0 as int]);
            }
            Some(&self.pixels[pos.0][pos.1])
        } else {
            None
        }
    }

    /// Serializes the canvas to PPM text: the header, then each row of
    /// pixels with lines wrapped at 70 characters.
    #[verifier::loop_isolation(false)]
    pub fn to_ppm(&self) -> (s: String)
        requires
            self.wf(),
        ensures
            s@ == ppm_chars(self@, self.width as int, self.height as int),
    {
        let ghost header = ppm_header(self.width as int, self.height as int);
        let mut s = String::new();
        proof {
            reveal_strlit("P3\n");
            reveal_strlit(" ");
            reveal_strlit("\n255\n");
            reveal_strlit("\n");
        }
        s.append("P3\n");
        crate::color::append_decimal(&mut s, self.width);
        s.append(" ");
        crate::color::append_decimal(&mut s, self.height);
        s.append("\n255\n");
        assert(s@ =~= header);

        let mut r: usize = 0;
        while r < self.height
            invariant
                self.wf(),
                r <= self.height,
                s@ == header + rows_chars(self@, r as int),
            decreases self.height - r,
        {
            let ghost sofar = s@;
            proof {
                assert(self.pixels@.len() == self@.len());
                assert(self.pixels@[r as int]@ == self@[r as int]);
            }
            let row = &self.pixels[r];
            let mut cnt: usize = 0;
            let mut j: usize = 0;
            while j < row.len()
                invariant
                    self.wf(),
                    r < self.height,
                    row == &self.pixels[r as int],
                    j <= row@.len(),
                    s@ == sofar + row_chars_prefix(row@, j as int).0,
                    cnt == row_chars_prefix(row@, j as int).1,
                    cnt <= 70,
                decreases row.len() - j,
            {
                let pixel = &row[j];
                let l = {
                    let dr = dec_len_u8(pixel.red);
                    let dg = dec_len_u8(pixel.green);
                    let db = dec_len_u8(pixel.blue);
                    dr + dg + db + 3
                };
                assert(l == rgb_chars(*pixel).len() + 1) by {
                    assert(rgb_chars(*pixel).len() == dec_seq(pixel.red as int).len() + 1
                        + dec_seq(pixel.green as int).len() + 1 + dec_seq(pixel.blue as int).len());
                }
                if cnt == 0 {
                    // first pixel of the line: no separator
                } else if cnt + l > 70 {
                    s.append("\n");
                    cnt = 0;
                } else {
                    s.append(" ");
                }
                let ghost before = s@;
                append_rgb(&mut s, pixel);
                cnt = cnt + l;
                j = j + 1;
                assert(s@ =~= sofar + row_chars_prefix(row@, j as int).0);
            }
            s.append("\n");
            r = r + 1;
            proof {
                assert(self@[r - 1] == row@);
                assert(row_chars(self@[r - 1]) == row_chars_prefix(row@, row@.len() as int).0
                    + seq!['\n']);
                assert(s@ =~= header + rows_chars(self@, r as int));
            }
        }
        s
    }
}

} // verus!
