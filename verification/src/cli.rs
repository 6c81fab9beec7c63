//! The command-line options the program runs with, as plain values.
//! Parsing the actual arguments is the binary's job; the library holds
//! the parsed record and the decisions made from it.

use vstd::prelude::*;

verus! {

/// The options: the shader file to preview, whether the performance
/// overlay is shown, an optional cap on the display refresh rate, and
/// whether to render in a window instead of the terminal.
pub struct Cli {
    pub shader_file: String,
    pub perf: bool,
    pub max_fps: Option<u32>,
    pub window: bool,
}

impl Cli {
    /// Whether the windowed presentation was chosen.
    pub fn is_windowed_mode(&self) -> (r: bool)
        ensures
            r == self.window,
    {
        self.window
    }
}

} // verus!
