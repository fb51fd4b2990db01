//! Proved facts about the rendered text's shape.
//!
//! The renderer's contract pins the output down exactly; the lemmas here
//! state the coarser facts a reader of the output cares about: how many
//! lines come out, how many glyph cells each line holds, and that rendering
//! is a function of the raster alone.

use vstd::prelude::*;
use crate::color::ColorType;
use crate::image::Image;
use crate::render::{
    bg_intro, fg_intro, glyph_tail, color_args, glyph_chars, dec_chars, digit_char, cell_chars,
    line_prefix, line_chars, num_lines, render_prefix, render_spec,
};

verus! {

/// How many times a character occurs in a sequence.
pub open spec fn count_char(s: Seq<char>, c: char) -> int
    decreases s.len(),
{
    if s.len() == 0 {
        0
    } else {
        count_char(s.drop_last(), c) + (if s.last() == c {
            1int
        } else {
            0int
        })
    }
}

/// Occurrences add up across concatenation.
pub proof fn lemma_count_concat(a: Seq<char>, b: Seq<char>, c: char)
    ensures
        count_char(a + b, c) == count_char(a, c) + count_char(b, c),
    decreases b.len(),
{
    if b.len() == 0 {
        assert(a + b =~= a);
    } else {
        assert((a + b).drop_last() =~= a + b.drop_last());
        lemma_count_concat(a, b.drop_last(), c);
    }
}

/// A character that occurs at no position occurs zero times.
pub proof fn lemma_count_absent(s: Seq<char>, c: char)
    requires
        forall|i: int| 0 <= i < s.len() ==> s[i] != c,
    ensures
        count_char(s, c) == 0,
    decreases s.len(),
{
    if s.len() > 0 {
        assert(forall|i: int| 0 <= i < s.drop_last().len() ==> s.drop_last()[i] != c);
        lemma_count_absent(s.drop_last(), c);
    }
}

/// A one-character sequence holds one occurrence or none.
pub proof fn lemma_count_single(x: char, c: char)
    ensures
        count_char(seq![x], c) == if x == c {
            1int
        } else {
            0int
        },
{
    assert(seq![x].drop_last() =~= Seq::<char>::empty());
    assert(count_char(Seq::<char>::empty(), c) == 0);
    assert(seq![x].last() == x);
}

/// The ten decimal digit characters.
pub open spec fn is_digit(c: char) -> bool {
    ||| c == '0'
    ||| c == '1'
    ||| c == '2'
    ||| c == '3'
    ||| c == '4'
    ||| c == '5'
    ||| c == '6'
    ||| c == '7'
    ||| c == '8'
    ||| c == '9'
}

/// A decimal rendering consists of digit characters alone.
pub proof fn lemma_dec_digits(n: int)
    requires
        n >= 0,
    ensures
        forall|i: int| 0 <= i < dec_chars(n).len() ==> is_digit(#[trigger] dec_chars(n)[i]),
    decreases n,
{
    if n >= 10 {
        lemma_dec_digits(n / 10);
        assert forall|i: int| 0 <= i < dec_chars(n).len() implies is_digit(
            #[trigger] dec_chars(n)[i],
        ) by {
            if i < dec_chars(n).len() - 1 {
                assert(dec_chars(n)[i] == dec_chars(n / 10)[i]);
            } else {
                assert(dec_chars(n)[i] == digit_char(n % 10));
            }
        }
    } else {
        assert(dec_chars(n) == seq![digit_char(n)]);
        assert(is_digit(digit_char(n)));
    }
}

/// A character that is no digit does not occur in a decimal rendering.
pub proof fn lemma_dec_count(n: int, c: char)
    requires
        n >= 0,
        !is_digit(c),
    ensures
        count_char(dec_chars(n), c) == 0,
{
    lemma_dec_digits(n);
    lemma_count_absent(dec_chars(n), c);
}

/// A character that is neither a digit nor a semicolon occurs in a color
/// argument list not at all.
proof fn lemma_color_args_count(r: u8, g: u8, b: u8, c: char)
    requires
        !is_digit(c),
        c != ';',
    ensures
        count_char(color_args(r, g, b), c) == 0,
{
    lemma_dec_count(r as int, c);
    lemma_dec_count(g as int, c);
    lemma_dec_count(b as int, c);
    lemma_count_single(';', c);
    lemma_count_concat(dec_chars(r as int), seq![';'], c);
    lemma_count_concat(dec_chars(r as int) + seq![';'], dec_chars(g as int), c);
    lemma_count_concat(dec_chars(r as int) + seq![';'] + dec_chars(g as int), seq![';'], c);
    lemma_count_concat(
        dec_chars(r as int) + seq![';'] + dec_chars(g as int) + seq![';'],
        dec_chars(b as int),
        c,
    );
}

/// A glyph cell holds no newline.
pub proof fn lemma_glyph_no_newline(fr: u8, fg: u8, fb: u8, br: u8, bg: u8, bb: u8)
    ensures
        count_char(glyph_chars(fr, fg, fb, br, bg, bb), '\n') == 0,
{
    lemma_count_absent(bg_intro(), '\n');
    lemma_count_absent(fg_intro(), '\n');
    lemma_count_absent(glyph_tail(), '\n');
    lemma_color_args_count(br, bg, bb, '\n');
    lemma_color_args_count(fr, fg, fb, '\n');
    lemma_count_concat(bg_intro(), color_args(br, bg, bb), '\n');
    lemma_count_concat(bg_intro() + color_args(br, bg, bb), fg_intro(), '\n');
    lemma_count_concat(
        bg_intro() + color_args(br, bg, bb) + fg_intro(),
        color_args(fr, fg, fb),
        '\n',
    );
    lemma_count_concat(
        bg_intro() + color_args(br, bg, bb) + fg_intro() + color_args(fr, fg, fb),
        glyph_tail(),
        '\n',
    );
}

/// A glyph cell holds exactly one upper half block character.
pub proof fn lemma_glyph_one_block(fr: u8, fg: u8, fb: u8, br: u8, bg: u8, bb: u8)
    ensures
        count_char(glyph_chars(fr, fg, fb, br, bg, bb), '\u{2580}') == 1,
{
    let c = '\u{2580}';
    lemma_count_absent(bg_intro(), c);
    lemma_count_absent(fg_intro(), c);
    lemma_color_args_count(br, bg, bb, c);
    lemma_color_args_count(fr, fg, fb, c);
    assert(glyph_tail() =~= seq!['m'] + seq![c] + seq!['\u{1b}', '[', '0', 'm']);
    lemma_count_single('m', c);
    lemma_count_single(c, c);
    lemma_count_absent(seq!['\u{1b}', '[', '0', 'm'], c);
    lemma_count_concat(seq!['m'], seq![c], c);
    lemma_count_concat(seq!['m'] + seq![c], seq!['\u{1b}', '[', '0', 'm'], c);
    lemma_count_concat(bg_intro(), color_args(br, bg, bb), c);
    lemma_count_concat(bg_intro() + color_args(br, bg, bb), fg_intro(), c);
    lemma_count_concat(bg_intro() + color_args(br, bg, bb) + fg_intro(), color_args(fr, fg, fb), c);
    lemma_count_concat(
        bg_intro() + color_args(br, bg, bb) + fg_intro() + color_args(fr, fg, fb),
        glyph_tail(),
        c,
    );
}

/// The first n cells of a line hold n block characters and no newline.
proof fn lemma_line_prefix_counts(data: Seq<u8>, w: int, h: int, ct: ColorType, y: int, n: int)
    requires
        n >= 0,
    ensures
        count_char(line_prefix(data, w, h, ct, y, n), '\u{2580}') == n,
        count_char(line_prefix(data, w, h, ct, y, n), '\n') == 0,
    decreases n,
{
    if n > 0 {
        lemma_line_prefix_counts(data, w, h, ct, y, n - 1);
        let cell = cell_chars(data, w, h, ct, n - 1, y);
        let t = crate::image::pixel_of(data, w, ct, n - 1, y);
        let b = crate::render::bottom_pixel(data, w, h, ct, n - 1, y);
        lemma_glyph_one_block(t.0, t.1, t.2, b.0, b.1, b.2);
        lemma_glyph_no_newline(t.0, t.1, t.2, b.0, b.1, b.2);
        lemma_count_concat(line_prefix(data, w, h, ct, y, n - 1), cell, '\u{2580}');
        lemma_count_concat(line_prefix(data, w, h, ct, y, n - 1), cell, '\n');
    }
}

/// Every output line holds exactly one glyph cell per column of the
/// raster's width — in particular, exactly width block characters — and no
/// newline of its own.
pub proof fn lemma_line_cell_count(data: Seq<u8>, w: int, h: int, ct: ColorType, y: int)
    requires
        w >= 0,
    ensures
        count_char(line_chars(data, w, h, ct, y), '\u{2580}') == w,
        count_char(line_chars(data, w, h, ct, y), '\n') == 0,
{
    lemma_line_prefix_counts(data, w, h, ct, y, w);
}

/// The first k output lines hold k * width block characters, and one
/// newline per line already followed by another.
proof fn lemma_render_prefix_counts(data: Seq<u8>, w: int, h: int, ct: ColorType, k: int)
    requires
        w >= 0,
        0 <= k <= num_lines(h),
    ensures
        count_char(render_prefix(data, w, h, ct, k), '\u{2580}') == k * w,
        count_char(render_prefix(data, w, h, ct, k), '\n') == if k < num_lines(h) {
            k
        } else if k > 0 {
            k - 1
        } else {
            0
        },
    decreases k,
{
    if k > 0 {
        lemma_render_prefix_counts(data, w, h, ct, k - 1);
        let prev = render_prefix(data, w, h, ct, k - 1);
        let line = line_chars(data, w, h, ct, 2 * (k - 1));
        let tail: Seq<char> = if k < num_lines(h) {
            seq!['\n']
        } else {
            Seq::empty()
        };
        lemma_line_cell_count(data, w, h, ct, 2 * (k - 1));
        lemma_count_concat(prev, line, '\u{2580}');
        lemma_count_concat(prev + line, tail, '\u{2580}');
        lemma_count_concat(prev, line, '\n');
        lemma_count_concat(prev + line, tail, '\n');
        lemma_count_single('\n', '\u{2580}');
        lemma_count_single('\n', '\n');
        if k == num_lines(h) {
            assert(tail =~= Seq::<char>::empty());
        }
        assert((k - 1) * w + w == k * w) by (nonlinear_arith);
    }
}

/// The rendered text of a raster of width w and height h is empty when
/// either dimension is zero; otherwise it holds one line per row pair —
/// ceil(h / 2) lines, so ceil(h / 2) - 1 separating newlines — and every
/// line holds exactly w glyph cells, each marked by its single upper half
/// block character.
pub proof fn lemma_render_shape(data: Seq<u8>, w: int, h: int, ct: ColorType)
    requires
        w >= 0,
        h >= 0,
    ensures
        w == 0 || h == 0 ==> render_spec(data, w, h, ct) == Seq::<char>::empty(),
        w > 0 && h > 0 ==> count_char(render_spec(data, w, h, ct), '\n') == num_lines(h) - 1,
        count_char(render_spec(data, w, h, ct), '\u{2580}') == num_lines(h) * w,
{
    lemma_render_prefix_counts(data, w, h, ct, num_lines(h));
    if w == 0 {
        assert(num_lines(h) * w == 0) by (nonlinear_arith)
            requires
                w == 0,
        ;
        assert(count_char(Seq::<char>::empty(), '\n') == 0);
        assert(count_char(Seq::<char>::empty(), '\u{2580}') == 0);
    }
}

/// The sequence of output lines of a raster: one per row pair, the pair
/// starting at row 2k giving line k.
pub open spec fn rendered_lines(data: Seq<u8>, w: int, h: int, ct: ColorType) -> Seq<Seq<char>> {
    Seq::new(num_lines(h) as nat, |k: int| line_chars(data, w, h, ct, 2 * k))
}

/// Lines joined by single newlines, with no trailing newline.
pub open spec fn join_lines(ls: Seq<Seq<char>>) -> Seq<char>
    decreases ls.len(),
{
    if ls.len() == 0 {
        Seq::empty()
    } else if ls.len() == 1 {
        ls[0]
    } else {
        join_lines(ls.drop_last()) + seq!['\n'] + ls.last()
    }
}

/// The first k lines of the rendering are those lines joined by newlines,
/// followed by one more newline whenever further lines follow.
proof fn lemma_render_prefix_join(data: Seq<u8>, w: int, h: int, ct: ColorType, k: int)
    requires
        1 <= k <= num_lines(h),
    ensures
        render_prefix(data, w, h, ct, k) == join_lines(rendered_lines(data, w, h, ct).take(k)) + (
        if k < num_lines(h) {
            seq!['\n']
        } else {
            Seq::empty()
        }),
    decreases k,
{
    let lines = rendered_lines(data, w, h, ct);
    let tail: Seq<char> = if k < num_lines(h) {
        seq!['\n']
    } else {
        Seq::empty()
    };
    if k == 1 {
        assert(lines.take(1).len() == 1);
        assert(lines.take(1)[0] == line_chars(data, w, h, ct, 0));
        assert(render_prefix(data, w, h, ct, 0) == Seq::<char>::empty());
        assert(render_prefix(data, w, h, ct, 1) =~= join_lines(lines.take(1)) + tail);
    } else {
        lemma_render_prefix_join(data, w, h, ct, k - 1);
        assert(lines.take(k).drop_last() =~= lines.take(k - 1));
        assert(lines.take(k).last() == line_chars(data, w, h, ct, 2 * (k - 1)));
        assert(join_lines(lines.take(k)) == join_lines(lines.take(k - 1)) + seq!['\n']
            + line_chars(data, w, h, ct, 2 * (k - 1)));
        assert(render_prefix(data, w, h, ct, k) =~= join_lines(lines.take(k)) + tail);
    }
}

/// A raster with columns renders as exactly its ceil(h / 2) row-pair lines
/// joined by single newlines — no heading, no trailing newline, nothing
/// between lines but the one separator.
pub proof fn lemma_render_joins_lines(data: Seq<u8>, w: int, h: int, ct: ColorType)
    requires
        w > 0,
        h >= 0,
    ensures
        rendered_lines(data, w, h, ct).len() == num_lines(h),
        render_spec(data, w, h, ct) == join_lines(rendered_lines(data, w, h, ct)),
{
    let lines = rendered_lines(data, w, h, ct);
    if h == 0 {
        assert(lines.len() == 0);
    } else {
        lemma_render_prefix_join(data, w, h, ct, num_lines(h));
        assert(lines.take(num_lines(h)) =~= lines);
        assert(render_spec(data, w, h, ct) =~= join_lines(lines));
    }
}

/// Rendering is deterministic: it depends on the raster's bytes, dimensions
/// and color layout alone, so two rasters that agree on them — in
/// particular, the same raster rendered twice — yield the same text.
pub proof fn lemma_render_deterministic(a: Image, b: Image)
    requires
        a.data@ == b.data@,
        a.width == b.width,
        a.height == b.height,
        a.color_type == b.color_type,
    ensures
        render_spec(a.data@, a.width as int, a.height as int, a.color_type) == render_spec(
            b.data@,
            b.width as int,
            b.height as int,
            b.color_type,
        ),
{
}

} // verus!

