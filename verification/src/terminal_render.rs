//! Turning one frame of color samples into terminal cells: each cell
//! shows two vertically stacked pixels through a half-block glyph, the
//! top pixel as foreground color and the bottom pixel as background.
//! The samples arrive as bytes, four per pixel, already converted from
//! the device's representation by the caller.

use vstd::prelude::*;
use crate::text::{chars_vec, decimal_chars, push_all, spec_decimal, string_from_chars};
use crate::terminal_buffer::{spec_cell_with, CellView, DoubleBuffer};

verus! {

/// The red, green and blue bytes at a pixel's offset, or black for an
/// offset beyond the sample buffer.
pub open spec fn spec_rgb_at(data: Seq<u8>, idx: int) -> (u8, u8, u8) {
    if 0 <= idx && idx + 2 < data.len() {
        (data[idx], data[idx + 1], data[idx + 2])
    } else {
        (0u8, 0u8, 0u8)
    }
}

/// The escape-coded cell text: the top pixel as 24-bit foreground, the
/// bottom pixel as 24-bit background, around an upper-half-block glyph.
pub open spec fn spec_cell_escape(top: (u8, u8, u8), bottom: (u8, u8, u8)) -> Seq<char> {
    "\u{1b}[38;2;"@ + spec_decimal(top.0 as nat) + ";"@ + spec_decimal(top.1 as nat) + ";"@
        + spec_decimal(top.2 as nat) + "m\u{1b}[48;2;"@ + spec_decimal(bottom.0 as nat) + ";"@
        + spec_decimal(bottom.1 as nat) + ";"@ + spec_decimal(bottom.2 as nat)
        + "m\u{2580}\u{1b}[0m"@
}

/// The sample offset of the pixel at column `x`, row `py`, four bytes
/// per pixel.
pub open spec fn spec_pixel_idx(gpu_width: nat, x: int, py: int) -> int {
    (py * gpu_width + x) * 4
}

/// The text the cell at `(x, y)` shows for this frame: the pixels of
/// rows `2y` and `2y + 1` at column `x`.
pub open spec fn spec_render_cell(data: Seq<u8>, gpu_width: nat, x: int, y: int) -> Seq<char> {
    spec_cell_escape(
        spec_rgb_at(data, spec_pixel_idx(gpu_width, x, 2 * y)),
        spec_rgb_at(data, spec_pixel_idx(gpu_width, x, 2 * y + 1)),
    )
}

/// The whole prepared grid for this frame.
pub open spec fn spec_rendered_grid(
    data: Seq<u8>,
    gpu_width: nat,
    width: nat,
    height: nat,
) -> Seq<Seq<CellView>> {
    Seq::new(
        height,
        |y: int| Seq::new(width, |x: int| spec_cell_with(spec_render_cell(data, gpu_width, x, y))),
    )
}

/// The escape-coded text for one cell, from the two pixels it shows.
pub fn cell_content(top: (u8, u8, u8), bottom: (u8, u8, u8)) -> (r: String)
    ensures
        r@ == spec_cell_escape(top, bottom),
{
    let mut out = chars_vec("\u{1b}[38;2;");
    let tr = decimal_chars(top.0 as u64);
    push_all(&mut out, &tr);
    let sep1 = chars_vec(";");
    push_all(&mut out, &sep1);
    let tg = decimal_chars(top.1 as u64);
    push_all(&mut out, &tg);
    let sep2 = chars_vec(";");
    push_all(&mut out, &sep2);
    let tb = decimal_chars(top.2 as u64);
    push_all(&mut out, &tb);
    let mid = chars_vec("m\u{1b}[48;2;");
    push_all(&mut out, &mid);
    let br = decimal_chars(bottom.0 as u64);
    push_all(&mut out, &br);
    let sep3 = chars_vec(";");
    push_all(&mut out, &sep3);
    let bg = decimal_chars(bottom.1 as u64);
    push_all(&mut out, &bg);
    let sep4 = chars_vec(";");
    push_all(&mut out, &sep4);
    let bb = decimal_chars(bottom.2 as u64);
    push_all(&mut out, &bb);
    let tail = chars_vec("m\u{2580}\u{1b}[0m");
    push_all(&mut out, &tail);
    string_from_chars(&out)
}

/// The red, green and blue bytes of the pixel at the given offset, or
/// black when the offset runs past the buffer.
fn rgb_at(data: &Vec<u8>, idx: usize) -> (r: (u8, u8, u8))
    ensures
        r == spec_rgb_at(data@, idx as int),
{
    if idx < data.len() && data.len() - idx > 2 {
        (data[idx], data[idx + 1], data[idx + 2])
    } else {
        (0, 0, 0)
    }
}

/// Fill the buffer's prepared grid from one frame of samples, one cell
/// per column and per pair of pixel rows, starting at row `start_y`;
/// rows before `start_y` stay blank.
pub(crate) fn render_rows(buffer: &mut DoubleBuffer, data: &Vec<u8>, gpu_width: u32, start_y: usize)
    requires
        crate::terminal_buffer::buffer_wf(*old(buffer)),
        (2 * old(buffer).height as int * gpu_width as int + old(buffer).width as int) * 4
            <= usize::MAX,
    ensures
        crate::terminal_buffer::buffer_wf(*final(buffer)),
        final(buffer).width == old(buffer).width,
        final(buffer).height == old(buffer).height,
        final(buffer).current == old(buffer).current,
        forall|yy: int, xx: int|
            0 <= yy < old(buffer).height && 0 <= xx < old(buffer).width
                ==> #[trigger] final(buffer).next.deep_view()[yy][xx] == (if yy < start_y {
                crate::terminal_buffer::spec_blank_cell()
            } else {
                spec_cell_with(spec_render_cell(data@, gpu_width as nat, xx, yy))
            }),
{
    buffer.clear_next();
    let ghost w = buffer.width as nat;
    let ghost h = buffer.height as nat;
    proof {
        assert(forall|yy: int, xx: int|
            0 <= yy < h && 0 <= xx < w ==> #[trigger] buffer.next.deep_view()[yy][xx]
                == crate::terminal_buffer::spec_blank_cell());
    }
    let mut y: usize = start_y;
    if y > buffer.height {
        y = buffer.height;
    }
    while y < buffer.height
        invariant
            crate::terminal_buffer::buffer_wf(*buffer),
            buffer.width == old(buffer).width,
            buffer.height == old(buffer).height,
            buffer.current == old(buffer).current,
            w == buffer.width as nat,
            h == buffer.height as nat,
            (2 * h * gpu_width as int + w) * 4 <= usize::MAX,
            y <= buffer.height,
            start_y <= y || (start_y > buffer.height && y == buffer.height),
            forall|yy: int, xx: int|
                0 <= yy < h && 0 <= xx < w && yy < y && start_y <= yy
                    ==> #[trigger] buffer.next.deep_view()[yy][xx] == spec_cell_with(
                    spec_render_cell(data@, gpu_width as nat, xx, yy),
                ),
            forall|yy: int, xx: int|
                0 <= yy < h && 0 <= xx < w && (y <= yy || yy < start_y)
                    ==> #[trigger] buffer.next.deep_view()[yy][xx]
                    == crate::terminal_buffer::spec_blank_cell(),
        decreases buffer.height - y,
    {
        let mut x: usize = 0;
        while x < buffer.width
            invariant
                crate::terminal_buffer::buffer_wf(*buffer),
                buffer.width == old(buffer).width,
                buffer.height == old(buffer).height,
                buffer.current == old(buffer).current,
                w == buffer.width as nat,
                h == buffer.height as nat,
                (2 * h * gpu_width as int + w) * 4 <= usize::MAX,
                start_y <= y < buffer.height,
                x <= buffer.width,
                forall|yy: int, xx: int|
                    0 <= yy < h && 0 <= xx < w && yy < y && start_y <= yy
                        ==> #[trigger] buffer.next.deep_view()[yy][xx] == spec_cell_with(
                        spec_render_cell(data@, gpu_width as nat, xx, yy),
                    ),
                forall|yy: int, xx: int|
                    0 <= yy < h && 0 <= xx < w && (y < yy || yy < start_y)
                        ==> #[trigger] buffer.next.deep_view()[yy][xx]
                        == crate::terminal_buffer::spec_blank_cell(),
                forall|xx: int|
                    0 <= xx < x ==> #[trigger] buffer.next.deep_view()[y as int][xx]
                        == spec_cell_with(spec_render_cell(data@, gpu_width as nat, xx, y as int)),
                forall|xx: int|
                    x <= xx < w ==> #[trigger] buffer.next.deep_view()[y as int][xx]
                        == crate::terminal_buffer::spec_blank_cell(),
            decreases buffer.width - x,
        {
            let gw = gpu_width as usize;
            let top_idx: usize;
            let bottom_idx: usize;
            if gw == 0 {
                proof {
                    assert(2 * h * gpu_width as int == 0) by (nonlinear_arith)
                        requires
                            gpu_width as int == 0,
                    ;
                    assert(x * 4 <= usize::MAX);
                    assert(spec_pixel_idx(gpu_width as nat, x as int, 2 * y) == x * 4)
                        by (nonlinear_arith)
                        requires
                            gpu_width as int == 0,
                            x >= 0,
                    ;
                    assert(spec_pixel_idx(gpu_width as nat, x as int, 2 * y + 1) == x * 4)
                        by (nonlinear_arith)
                        requires
                            gpu_width as int == 0,
                            x >= 0,
                    ;
                }
                top_idx = x * 4;
                bottom_idx = x * 4;
            } else {
                proof {
                    assert((2 * y + 1) * gpu_width as int + x < 2 * h * gpu_width as int + w)
                        by (nonlinear_arith)
                        requires
                            0 <= y < h,
                            0 <= x < w,
                            gpu_width as int >= 1,
                    ;
                    assert(0 <= 2 * y * gpu_width as int + x <= (2 * y + 1) * gpu_width as int
                        + x) by (nonlinear_arith)
                        requires
                            0 <= y,
                            0 <= x,
                            gpu_width as int >= 1,
                    ;
                    assert(2 * y <= 2 * y * gpu_width as int) by (nonlinear_arith)
                        requires
                            0 <= y,
                            gpu_width as int >= 1,
                    ;
                    assert(((2 * y + 1) * gpu_width as int + x) * 4 <= usize::MAX)
                        by (nonlinear_arith)
                        requires
                            (2 * y + 1) * gpu_width as int + x < 2 * h * gpu_width as int + w,
                            (2 * h * gpu_width as int + w) * 4 <= usize::MAX,
                            0 <= (2 * y + 1) * gpu_width as int + x,
                    ;
                    assert((2 * y * gpu_width as int + x) * 4 <= ((2 * y + 1) * gpu_width as int
                        + x) * 4) by (nonlinear_arith)
                        requires
                            0 <= 2 * y * gpu_width as int + x <= (2 * y + 1) * gpu_width as int
                                + x,
                    ;
                }
                top_idx = (2 * y * gw + x) * 4;
                bottom_idx = ((2 * y + 1) * gw + x) * 4;
            }
            proof {
                assert(top_idx as int == spec_pixel_idx(gpu_width as nat, x as int, 2 * y));
                assert(bottom_idx as int == spec_pixel_idx(gpu_width as nat, x as int, 2 * y + 1));
            }
            let top = rgb_at(data, top_idx);
            let bottom = rgb_at(data, bottom_idx);
            let content = cell_content(top, bottom);
            proof {
                assert(content@ == spec_render_cell(data@, gpu_width as nat, x as int, y as int));
            }
            let ghost pre = buffer.next.deep_view();
            buffer.set_cell(x, y, content);
            proof {
                assert(buffer.next.deep_view() == pre.update(
                    y as int,
                    pre[y as int].update(x as int, spec_cell_with(content@)),
                ));
                assert forall|yy: int, xx: int|
                    0 <= yy < h && 0 <= xx < w && yy != y implies #[trigger] buffer.next.deep_view()[yy][xx]
                    == pre[yy][xx] by {
                    assert(buffer.next.deep_view()[yy] == pre[yy]);
                }
                assert forall|xx: int|
                    0 <= xx < w && xx != x implies #[trigger] buffer.next.deep_view()[y as int][xx]
                    == pre[y as int][xx] by {}
                assert(buffer.next.deep_view()[y as int][x as int] == spec_cell_with(content@));
            }
            x = x + 1;
        }
        y = y + 1;
    }
}

/// Fill the buffer's prepared grid from one frame of samples: the cell
/// at `(x, y)` shows the pixels of rows `2y` and `2y + 1` at column `x`.
pub fn update_buffer_from_gpu_data(
    buffer: &mut DoubleBuffer,
    data: &Vec<u8>,
    gpu_width: u32,
    gpu_height: u32,
)
    requires
        crate::terminal_buffer::buffer_wf(*old(buffer)),
        (2 * old(buffer).height as int * gpu_width as int + old(buffer).width as int) * 4
            <= usize::MAX,
    ensures
        crate::terminal_buffer::buffer_wf(*final(buffer)),
        final(buffer).width == old(buffer).width,
        final(buffer).height == old(buffer).height,
        final(buffer).current == old(buffer).current,
        final(buffer).next.deep_view() == spec_rendered_grid(
            data@,
            gpu_width as nat,
            old(buffer).width as nat,
            old(buffer).height as nat,
        ),
{
    render_rows(buffer, data, gpu_width, 0);
    proof {
        assert(buffer.next.deep_view() =~~= spec_rendered_grid(
            data@,
            gpu_width as nat,
            old(buffer).width as nat,
            old(buffer).height as nat,
        ));
    }
}

} // verus!
