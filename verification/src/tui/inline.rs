//! Where the interface sits in the terminal.

use vstd::prelude::*;

verus! {

/// The rows and the cursor of the part of the terminal that the interface
/// draws into.
#[derive(Debug, Clone, Copy, PartialEq, Eq, Structural)]
pub struct InlineRenderState {
    pub cursor_row: u16,
    pub cursor_col: u16,
    pub footer_row: Option<u16>,
    pub input_rows: u16,
    pub status_rows: u16,
    pub min_log_rows: u16,
    pub dirty: bool,
}

impl Default for InlineRenderState {
    /// Nothing is drawn yet: three rows are kept for the log, and the
    /// whole is due for drawing.
    fn default() -> (out: InlineRenderState)
        ensures
            out == (InlineRenderState {
                cursor_row: 0,
                cursor_col: 0,
                footer_row: None,
                input_rows: 0,
                status_rows: 0,
                min_log_rows: 3,
                dirty: true,
            }),
    {
        InlineRenderState {
            cursor_row: 0,
            cursor_col: 0,
            footer_row: None,
            input_rows: 0,
            status_rows: 0,
            min_log_rows: 3,
            dirty: true,
        }
    }
}

} // verus!
