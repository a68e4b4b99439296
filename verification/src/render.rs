//! The render plan: a pure projection of the session state into the draw
//! instructions for one frame.
//!
//! Row 0 carries the prompt followed by the query.  The rows below it show
//! the visible window of the filtered list, with the cursor row marked
//! highlighted.  Every drawn line is truncated to the terminal width and
//! padded with spaces, so a frame fully overwrites the previous one; rows
//! past the end of the list get no instruction at all.

use vstd::prelude::*;
use vstd::string::{StrSliceExecFns, StringExecFns};

use crate::client::{Client, nat_min, nat_sub};
use crate::text::push_char;

verus! {

/// One draw instruction: `text` on terminal row `row`, highlighted or not.
pub struct RenderRow {
    pub row: usize,
    pub text: String,
    pub highlighted: bool,
}

/// The draw instructions for one frame: the header row and the item rows,
/// plus the column where the hardware cursor belongs on row 0.
pub struct RenderPlan {
    pub header: String,
    pub cursor_col: usize,
    pub rows: Vec<RenderRow>,
}

/// `s` cut or extended to exactly `w` characters, the extension blank.
pub open spec fn pad_spec(s: Seq<char>, w: nat) -> Seq<char> {
    Seq::new(
        w,
        |i: int|
            if i < s.len() {
                s[i]
            } else {
                ' '
            },
    )
}

/// Cuts or pads `item` to exactly `width` characters.
pub fn pad_line(item: &str, width: usize) -> (r: String)
    ensures
        r@ == pad_spec(item@, width as nat),
{
    let mut out = String::new();
    let n: usize = item.unicode_len();
    for x in 0..width
        invariant
            n == item@.len(),
            out@.len() == x,
            forall|j: int|
                0 <= j < x ==> out@[j] == (if j < item@.len() {
                    item@[j]
                } else {
                    ' '
                }),
    {
        let c: char = if x < n {
            item.get_char(x)
        } else {
            ' '
        };
        push_char(&mut out, c);
    }
    proof {
        assert(out@ =~= pad_spec(item@, width as nat));
    }
    out
}

impl Client {
    /// The frame for a terminal `width` columns wide and `height` rows
    /// tall, one row of which is the header: the padded header with the
    /// hardware-cursor column at the end of the query, and one padded item
    /// row for each visible line, the cursor row highlighted.
    pub fn render_plan(&self, width: usize, height: usize) -> (r: RenderPlan)
        requires
            1 <= height,
        ensures
            r.header@ == pad_spec(self@.prompt + self@.query, width as nat),
            r.cursor_col == self@.prompt.len() + self@.query.len(),
            r.rows@.len() == nat_min((height - 1) as nat, nat_sub(self@.filtered.len(), self@.offset)),
            forall|j: int|
                0 <= j < r.rows@.len() ==> {
                    &&& (#[trigger] r.rows@[j]).row == j + 1
                    &&& r.rows@[j].text@ == pad_spec(
                        self@.filtered[self@.offset + j]@,
                        width as nat,
                    )
                    &&& r.rows@[j].highlighted == (j == self@.cursor)
                },
    {
        let mut header = self.query_prompt().clone();
        header.append(self.query_text());
        let cursor_col: usize = header.as_str().unicode_len();
        let padded_header = pad_line(header.as_str(), width);

        let n: usize = self.filtered_lines().len();
        let off: usize = self.viewport_offset();
        let cur: usize = self.viewport_cursor();
        let h_items: usize = height - 1;
        let avail: usize = if off <= n {
            n - off
        } else {
            0
        };
        let count: usize = if h_items < avail {
            h_items
        } else {
            avail
        };
        let mut rows: Vec<RenderRow> = Vec::new();
        for j in 0..count
            invariant
                count <= avail,
                n == self@.filtered.len(),
                off == self@.offset,
                cur == self@.cursor,
                avail == nat_sub(n as nat, off as nat),
                count <= (height - 1),
                rows@.len() == j,
                forall|k: int|
                    0 <= k < j ==> {
                        &&& (#[trigger] rows@[k]).row == k + 1
                        &&& rows@[k].text@ == pad_spec(
                            self@.filtered[self@.offset + k]@,
                            width as nat,
                        )
                        &&& rows@[k].highlighted == (k == self@.cursor)
                    },
        {
            let line = self.filtered_line(off + j);
            let text = pad_line(line, width);
            rows.push(RenderRow { row: j + 1, text, highlighted: j == cur });
        }
        RenderPlan { header: padded_header, cursor_col, rows }
    }

}

} // verus!
