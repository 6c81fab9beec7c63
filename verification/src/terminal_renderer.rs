//! The consumer-side renderer state: the double-buffered cell grid, the
//! error overlay state, and the decisions the display loop makes from
//! typed events. The loop itself — terminal I/O, input polling, sleeps —
//! belongs to the binary; every decision it takes is a method here.

use vstd::prelude::*;

use crate::terminal_buffer::{buffer_wf, spec_cell_with, DoubleBuffer};
use crate::terminal_render::{render_rows, spec_render_cell};
use crate::text::{
    chars_vec, decimal_chars, digit_char, push_all, spec_decimal, spec_digit_char,
    string_from_chars,
};
use crate::threading::ThreadError;

verus! {

/// The view of an optional text.
pub open spec fn opt_text_view(o: Option<String>) -> Option<Seq<char>> {
    match o {
        Some(s) => Some(s@),
        None => None,
    }
}

/// Renderer state for the terminal presentation: the grid being drawn,
/// the dimensions in cells, the current error overlay text, and the
/// error text already on screen.
pub struct TerminalRenderer {
    pub terminal_buffer: DoubleBuffer,
    pub width: u32,
    pub height: u32,
    pub error_state: Option<String>,
    pub displayed_error: Option<String>,
}

/// A well-formed renderer: the grid matches the stated dimensions.
pub open spec fn renderer_wf(r: TerminalRenderer) -> bool {
    &&& buffer_wf(r.terminal_buffer)
    &&& r.terminal_buffer.width == r.width as usize
    &&& r.terminal_buffer.height == r.height as usize
}

impl TerminalRenderer {
    /// A fresh renderer with a blank grid and no error shown.
    pub fn new(width: u32, height: u32) -> (r: Self)
        ensures
            renderer_wf(r),
            r.width == width,
            r.height == height,
            r.error_state is None,
            r.displayed_error is None,
    {
        let terminal_buffer = DoubleBuffer::new(width as usize, height as usize);
        TerminalRenderer {
            terminal_buffer,
            width,
            height,
            error_state: None,
            displayed_error: None,
        }
    }

    /// React to one typed signal: compile and device failures set the
    /// error overlay, a successful reload clears it, and only `Shutdown`
    /// asks the loop to exit.
    pub fn apply_thread_error(&mut self, err: &ThreadError) -> (shutdown: bool)
        ensures
            final(self).terminal_buffer == old(self).terminal_buffer,
            final(self).width == old(self).width,
            final(self).height == old(self).height,
            final(self).displayed_error == old(self).displayed_error,
            (match err {
                ThreadError::ShaderCompilationError(msg) => !shutdown && opt_text_view(
                    final(self).error_state,
                ) == Some("Shader compilation error: "@ + msg@),
                ThreadError::ShaderReloadSuccess => !shutdown && final(self).error_state is None,
                ThreadError::GpuError(msg) => !shutdown && opt_text_view(final(self).error_state)
                    == Some("GPU error: "@ + msg@),
                ThreadError::Shutdown => shutdown && final(self).error_state == old(
                    self,
                ).error_state,
            }),
    {
        match err {
            ThreadError::ShaderCompilationError(msg) => {
                let mut out = chars_vec("Shader compilation error: ");
                let m = chars_vec(msg.as_str());
                push_all(&mut out, &m);
                self.error_state = Some(string_from_chars(&out));
                false
            },
            ThreadError::ShaderReloadSuccess => {
                self.error_state = None;
                false
            },
            ThreadError::GpuError(msg) => {
                let mut out = chars_vec("GPU error: ");
                let m = chars_vec(msg.as_str());
                push_all(&mut out, &m);
                self.error_state = Some(string_from_chars(&out));
                false
            },
            ThreadError::Shutdown => true,
        }
    }

    /// Record the outcome of a file-change reload request: an error text
    /// enters the overlay, success clears it.
    pub fn set_file_change_result(&mut self, error: Option<String>)
        ensures
            final(self).terminal_buffer == old(self).terminal_buffer,
            final(self).width == old(self).width,
            final(self).height == old(self).height,
            final(self).displayed_error == old(self).displayed_error,
            final(self).error_state == error,
    {
        self.error_state = error;
    }

    /// Whether the overlay must be redrawn: there is an error to show
    /// and it is not the one already on screen.
    pub fn should_redraw_error(&self) -> (r: bool)
        ensures
            r == (self.error_state is Some && opt_text_view(self.displayed_error) != opt_text_view(
                self.error_state,
            )),
    {
        match (&self.error_state, &self.displayed_error) {
            (Some(e), Some(d)) => !e.eq(d),
            (Some(_), None) => true,
            (None, _) => false,
        }
    }

    /// Note that the current error overlay is now on screen.
    pub fn mark_error_displayed(&mut self)
        ensures
            final(self).terminal_buffer == old(self).terminal_buffer,
            final(self).width == old(self).width,
            final(self).height == old(self).height,
            final(self).error_state == old(self).error_state,
            opt_text_view(final(self).displayed_error) == opt_text_view(old(self).error_state),
    {
        match &self.error_state {
            Some(e) => {
                let c = e.clone();
                self.displayed_error = Some(c);
            },
            None => {
                self.displayed_error = None;
            },
        }
    }

    /// Note that the screen shows no error overlay any more.
    pub fn clear_displayed_error(&mut self)
        ensures
            final(self).terminal_buffer == old(self).terminal_buffer,
            final(self).width == old(self).width,
            final(self).height == old(self).height,
            final(self).error_state == old(self).error_state,
            final(self).displayed_error is None,
    {
        self.displayed_error = None;
    }

    /// Fill the grid from one frame of samples, leaving the top row
    /// blank so the performance overlay keeps its place.
    pub fn update_buffer_from_gpu_data_skip_top_row(
        &mut self,
        data: &Vec<u8>,
        gpu_width: u32,
        gpu_height: u32,
    )
        requires
            renderer_wf(*old(self)),
            (2 * old(self).height as int * gpu_width as int + old(self).width as int) * 4
                <= usize::MAX,
        ensures
            renderer_wf(*final(self)),
            final(self).width == old(self).width,
            final(self).height == old(self).height,
            final(self).error_state == old(self).error_state,
            final(self).displayed_error == old(self).displayed_error,
            final(self).terminal_buffer.current == old(self).terminal_buffer.current,
            forall|yy: int, xx: int|
                0 <= yy < old(self).height && 0 <= xx < old(self).width
                    ==> #[trigger] final(self).terminal_buffer.next.deep_view()[yy][xx] == (
                if yy < 1 {
                    crate::terminal_buffer::spec_blank_cell()
                } else {
                    spec_cell_with(spec_render_cell(data@, gpu_width as nat, xx, yy))
                }),
    {
        render_rows(&mut self.terminal_buffer, data, gpu_width, 1);
    }
}

/// The overlay line of the performance display: both rates shown with
/// one truncated decimal, from their milliframes-per-second values, and
/// the cumulative count of dropped frames.
pub open spec fn spec_performance_overlay(
    gpu_mfps: nat,
    term_mfps: nat,
    frames_dropped: nat,
) -> Seq<char> {
    "GPU: "@ + spec_decimal(gpu_mfps / 1000) + seq!['.'] + seq![
        spec_digit_char((gpu_mfps % 1000) / 100),
    ] + " | Term: "@ + spec_decimal(term_mfps / 1000) + seq!['.'] + seq![
        spec_digit_char((term_mfps % 1000) / 100),
    ] + " | Dropped: "@ + spec_decimal(frames_dropped)
}

/// The overlay line showing both stages' rates and the drop count.
pub fn format_performance_overlay(gpu_mfps: u64, term_mfps: u64, frames_dropped: u64) -> (r:
    String)
    ensures
        r@ == spec_performance_overlay(gpu_mfps as nat, term_mfps as nat, frames_dropped as nat),
{
    let mut out = chars_vec("GPU: ");
    let g_whole = decimal_chars(gpu_mfps / 1000);
    push_all(&mut out, &g_whole);
    let mut dot: Vec<char> = Vec::new();
    dot.push('.');
    push_all(&mut out, &dot);
    let mut g_tenth: Vec<char> = Vec::new();
    g_tenth.push(digit_char((gpu_mfps % 1000) / 100));
    push_all(&mut out, &g_tenth);
    let mid = chars_vec(" | Term: ");
    push_all(&mut out, &mid);
    let t_whole = decimal_chars(term_mfps / 1000);
    push_all(&mut out, &t_whole);
    push_all(&mut out, &dot);
    let mut t_tenth: Vec<char> = Vec::new();
    t_tenth.push(digit_char((term_mfps % 1000) / 100));
    push_all(&mut out, &t_tenth);
    let tail = chars_vec(" | Dropped: ");
    push_all(&mut out, &tail);
    let d = decimal_chars(frames_dropped);
    push_all(&mut out, &d);
    proof {
        assert(out@ =~= spec_performance_overlay(
            gpu_mfps as nat,
            term_mfps as nat,
            frames_dropped as nat,
        ));
    }
    string_from_chars(&out)
}

} // verus!
