//! The glyph renderer: turns a raster into truecolor terminal text.
//!
//! Raster rows are taken in pairs; each pair becomes one output line of
//! U+2580 (upper half block) glyphs whose foreground carries the top row's
//! pixel and whose background carries the bottom row's pixel, each color set
//! by a 24-bit terminal escape sequence.

use vstd::prelude::*;
use crate::color::ColorType;
use crate::error::TpngError;
use crate::image::{Image, pixel_of};

verus! {

/// The character of a single decimal digit.
pub open spec fn digit_char(d: int) -> char {
    if d == 0 {
        '0'
    } else if d == 1 {
        '1'
    } else if d == 2 {
        '2'
    } else if d == 3 {
        '3'
    } else if d == 4 {
        '4'
    } else if d == 5 {
        '5'
    } else if d == 6 {
        '6'
    } else if d == 7 {
        '7'
    } else if d == 8 {
        '8'
    } else {
        '9'
    }
}

/// The usual decimal rendering of a non-negative number: no sign, no
/// padding, a single `0` for zero.
pub open spec fn dec_chars(n: int) -> Seq<char>
    decreases n,
{
    if n < 10 {
        seq![digit_char(n)]
    } else {
        dec_chars(n / 10).push(digit_char(n % 10))
    }
}

/// Appends the character of one decimal digit.
fn push_digit(buf: &mut String, d: u8)
    requires
        d < 10,
    ensures
        final(buf)@ == old(buf)@ + seq![digit_char(d as int)],
{
    match d {
        0 => buf.append("0"),
        1 => buf.append("1"),
        2 => buf.append("2"),
        3 => buf.append("3"),
        4 => buf.append("4"),
        5 => buf.append("5"),
        6 => buf.append("6"),
        7 => buf.append("7"),
        8 => buf.append("8"),
        _ => buf.append("9"),
    }
    proof {
        reveal_strlit("0");
        reveal_strlit("1");
        reveal_strlit("2");
        reveal_strlit("3");
        reveal_strlit("4");
        reveal_strlit("5");
        reveal_strlit("6");
        reveal_strlit("7");
        reveal_strlit("8");
        reveal_strlit("9");
        assert(buf@ =~= old(buf)@ + seq![digit_char(d as int)]);
    }
}

/// Appends the decimal rendering of an 8-bit value (one to three digits).
fn push_dec(buf: &mut String, n: u8)
    ensures
        final(buf)@ == old(buf)@ + dec_chars(n as int),
{
    if n >= 100 {
        push_digit(buf, n / 100);
        push_digit(buf, (n / 10) % 10);
        push_digit(buf, n % 10);
        proof {
            assert(dec_chars(n as int) == dec_chars(n as int / 10).push(digit_char(n as int % 10)));
            assert(dec_chars(n as int / 10) == dec_chars(n as int / 100).push(
                digit_char(n as int / 10 % 10),
            ));
            assert(dec_chars(n as int / 100) =~= seq![digit_char(n as int / 100)]);
            assert(buf@ =~= old(buf)@ + dec_chars(n as int));
        }
    } else if n >= 10 {
        push_digit(buf, n / 10);
        push_digit(buf, n % 10);
        proof {
            assert(dec_chars(n as int) == dec_chars(n as int / 10).push(digit_char(n as int % 10)));
            assert(dec_chars(n as int / 10) =~= seq![digit_char(n as int / 10)]);
            assert(buf@ =~= old(buf)@ + dec_chars(n as int));
        }
    } else {
        push_digit(buf, n);
        proof {
            assert(buf@ =~= old(buf)@ + dec_chars(n as int));
        }
    }
}

/// The opening of a glyph's escape sequence, up to the background color's
/// first decimal argument: ESC `[48;2;`.
pub open spec fn bg_intro() -> Seq<char> {
    seq!['\u{1b}', '[', '4', '8', ';', '2', ';']
}

/// The switch from the background to the foreground color inside a glyph's
/// escape sequence: `;38;2;`.
pub open spec fn fg_intro() -> Seq<char> {
    seq![';', '3', '8', ';', '2', ';']
}

/// The close of a glyph: `m`, the upper half block U+2580, and the reset
/// sequence ESC `[0m`.
pub open spec fn glyph_tail() -> Seq<char> {
    seq!['m', '\u{2580}', '\u{1b}', '[', '0', 'm']
}

/// Three decimal color components separated by semicolons.
pub open spec fn color_args(r: u8, g: u8, b: u8) -> Seq<char> {
    dec_chars(r as int) + seq![';'] + dec_chars(g as int) + seq![';'] + dec_chars(b as int)
}

/// One glyph cell: a single escape sequence that sets the 24-bit background
/// and foreground colors, the upper half block character, and a reset.
pub open spec fn glyph_chars(fr: u8, fg: u8, fb: u8, br: u8, bg: u8, bb: u8) -> Seq<char> {
    bg_intro() + color_args(br, bg, bb) + fg_intro() + color_args(fr, fg, fb) + glyph_tail()
}

/// Appends one glyph cell with the given foreground and background colors.
#[verifier::rlimit(60)]
fn push_glyph(buf: &mut String, fr: u8, fg: u8, fb: u8, br: u8, bg: u8, bb: u8)
    ensures
        final(buf)@ == old(buf)@ + glyph_chars(fr, fg, fb, br, bg, bb),
{
    buf.append("\u{1b}[48;2;");
    push_dec(buf, br);
    buf.append(";");
    push_dec(buf, bg);
    buf.append(";");
    push_dec(buf, bb);
    buf.append(";38;2;");
    push_dec(buf, fr);
    buf.append(";");
    push_dec(buf, fg);
    buf.append(";");
    push_dec(buf, fb);
    buf.append("m\u{2580}\u{1b}[0m");
    proof {
        reveal_strlit("\u{1b}[48;2;");
        reveal_strlit(";");
        reveal_strlit(";38;2;");
        reveal_strlit("m\u{2580}\u{1b}[0m");
        assert(buf@ =~= old(buf)@ + glyph_chars(fr, fg, fb, br, bg, bb));
    }
}

/// The bottom sample of a row pair: the pixel one row below, or transparent
/// black padding when the pair runs past the last row.
pub open spec fn bottom_pixel(data: Seq<u8>, w: int, h: int, ct: ColorType, x: int, y: int) -> (
    u8,
    u8,
    u8,
    u8,
) {
    if y + 1 < h {
        pixel_of(data, w, ct, x, y + 1)
    } else {
        (0u8, 0u8, 0u8, 0u8)
    }
}

/// The glyph cell at column x of the row pair starting at row y: foreground
/// from the top pixel, background from the bottom sample.
pub open spec fn cell_chars(data: Seq<u8>, w: int, h: int, ct: ColorType, x: int, y: int) -> Seq<
    char,
> {
    let t = pixel_of(data, w, ct, x, y);
    let b = bottom_pixel(data, w, h, ct, x, y);
    glyph_chars(t.0, t.1, t.2, b.0, b.1, b.2)
}

/// The first n cells of the line for the row pair starting at row y.
pub open spec fn line_prefix(data: Seq<u8>, w: int, h: int, ct: ColorType, y: int, n: int) -> Seq<
    char,
>
    decreases n,
{
    if n <= 0 {
        Seq::empty()
    } else {
        line_prefix(data, w, h, ct, y, n - 1) + cell_chars(data, w, h, ct, n - 1, y)
    }
}

/// One full output line for the row pair starting at row y: one cell per
/// column of the raster's width.
pub open spec fn line_chars(data: Seq<u8>, w: int, h: int, ct: ColorType, y: int) -> Seq<char> {
    line_prefix(data, w, h, ct, y, w)
}

/// The number of output lines: one per row pair, the ceiling of h / 2.
pub open spec fn num_lines(h: int) -> int {
    (h + 1) / 2
}

/// The first k output lines, with a newline after every line but the whole
/// image's last.
pub open spec fn render_prefix(data: Seq<u8>, w: int, h: int, ct: ColorType, k: int) -> Seq<char>
    decreases k,
{
    if k <= 0 {
        Seq::empty()
    } else {
        render_prefix(data, w, h, ct, k - 1) + line_chars(data, w, h, ct, 2 * (k - 1)) + (if k
            < num_lines(h) {
            seq!['\n']
        } else {
            Seq::empty()
        })
    }
}

/// The whole rendering of a raster: every row pair's line, newline
/// separated, with no trailing newline. A raster with no columns or no rows
/// renders as empty text rather than as a stack of empty lines.
pub open spec fn render_spec(data: Seq<u8>, w: int, h: int, ct: ColorType) -> Seq<char> {
    if w <= 0 {
        Seq::empty()
    } else {
        render_prefix(data, w, h, ct, num_lines(h))
    }
}

impl Image {
    /// The terminal text of this raster: for every pair of rows one line of
    /// upper-half-block glyphs whose foreground is the top row's pixel and
    /// whose background is the bottom row's (or the black padding below an
    /// odd last row), each colored by a 24-bit escape sequence. Never fails
    /// on a well-formed raster.
    pub fn as_string(&self) -> (r: Result<String, TpngError>)
        requires
            self.wf(),
        ensures
            r matches Ok(s) && s@ == render_spec(
                self.data@,
                self.width as int,
                self.height as int,
                self.color_type,
            ),
    {
        let mut buf = String::new();
        if self.width == 0 {
            return Ok(buf);
        }
        let mut y: u64 = 0;
        let mut k: u64 = 0;
        while y < self.height as u64
            invariant
                self.wf(),
                y == 2 * k,
                k <= num_lines(self.height as int),
                buf@ == render_prefix(
                    self.data@,
                    self.width as int,
                    self.height as int,
                    self.color_type,
                    k as int,
                ),
            decreases self.height as int + 1 - y as int,
        {
            let mut x: u32 = 0;
            while x < self.width
                invariant
                    self.wf(),
                    y == 2 * k,
                    y < self.height,
                    x <= self.width,
                    buf@ == render_prefix(
                        self.data@,
                        self.width as int,
                        self.height as int,
                        self.color_type,
                        k as int,
                    ) + line_prefix(
                        self.data@,
                        self.width as int,
                        self.height as int,
                        self.color_type,
                        y as int,
                        x as int,
                    ),
                decreases self.width as int - x as int,
            {
                let top = match self.get_pixel(x, y as u32) {
                    Ok(p) => p,
                    Err(e) => {
                        return Err(e);
                    },
                };
                let bottom = if y + 1 < self.height as u64 {
                    match self.get_pixel(x, (y + 1) as u32) {
                        Ok(p) => p,
                        Err(e) => {
                            return Err(e);
                        },
                    }
                } else {
                    (0, 0, 0, 0)
                };
                push_glyph(&mut buf, top.0, top.1, top.2, bottom.0, bottom.1, bottom.2);
                x = x + 1;
            }
            if self.height as u64 - y > 2 {
                buf.append("\n");
            }
            proof {
                reveal_strlit("\n");
                assert(buf@ =~= render_prefix(
                    self.data@,
                    self.width as int,
                    self.height as int,
                    self.color_type,
                    k as int + 1,
                ));
            }
            y = y + 2;
            k = k + 1;
        }
        Ok(buf)
    }
}

} // verus!
