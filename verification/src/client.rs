//! The selection session: one `Client` owns the source list, the query, the
//! filtered list derived from them, and the viewport (offset and cursor)
//! into the filtered list.
//!
//! Input events drive the session: characters and backspace edit the query
//! and re-filter, the arrow events move the viewport one row at a time, and
//! enter or escape ends the session.  A query that is not a valid pattern
//! leaves the filtered list and the viewport exactly as they were; only the
//! query text changes, so the user can keep typing or delete back out.

use vstd::prelude::*;
use vstd::string::StringExecFns;

use crate::filter::{filter, filter_spec, query_ok, clone_lines, lemma_filter_exact_matches};

verus! {

/// An input event, as the selection protocol classifies it.
#[derive(Clone, Copy, Debug)]
pub enum Event {
    /// A printable character to append to the query.
    Char(char),
    /// Delete the last character of the query.
    Backspace,
    /// Move the highlight one row up.
    Up,
    /// Move the highlight one row down.
    Down,
    /// Confirm the highlighted line.
    Enter,
    /// Cancel the session.
    Esc,
    /// Anything else; ignored.
    Other,
}

/// What one handled event means for the session.
#[derive(Clone, Debug)]
pub enum Status {
    /// The session ends with this line chosen.
    Selected(String),
    /// The session ends without a choice.
    Escaped,
    /// The session goes on.
    Continue,
}

/// The abstract state of a client: the mathematical values of its fields.
#[verifier::ext_equal]
pub ghost struct ClientView {
    pub lines: Seq<String>,
    pub filtered: Seq<String>,
    pub query: Seq<char>,
    pub prompt: Seq<char>,
    pub offset: nat,
    pub cursor: nat,
}

/// The smaller of two naturals.
pub open spec fn nat_min(a: nat, b: nat) -> nat {
    if a <= b {
        a
    } else {
        b
    }
}

/// Subtraction on naturals, stopping at zero.
pub open spec fn nat_sub(a: nat, b: nat) -> nat {
    if a >= b {
        (a - b) as nat
    } else {
        0
    }
}

/// What always holds of a client between events: an empty filtered list
/// pins offset and cursor at zero, otherwise the selected index
/// `offset + cursor` is a valid index into the filtered list, and every
/// filtered line is one of the source lines.
pub open spec fn view_wf(v: ClientView) -> bool {
    &&& v.filtered.len() == 0 ==> v.offset == 0 && v.cursor == 0
    &&& v.filtered.len() > 0 ==> v.offset + v.cursor < v.filtered.len()
    &&& forall|i: int| 0 <= i < v.filtered.len() ==> v.lines.contains(#[trigger] v.filtered[i])
}

/// The index into the filtered list of the highlighted line.
pub open spec fn selected_index(v: ClientView) -> int {
    v.offset + v.cursor as int
}

/// Moving up: the cursor retreats within the window; at the top row the
/// window scrolls up one line; at the very top nothing changes.
pub open spec fn move_up_view(v: ClientView) -> ClientView {
    if v.cursor > 0 {
        ClientView { cursor: (v.cursor - 1) as nat, ..v }
    } else if v.offset > 0 {
        ClientView { offset: (v.offset - 1) as nat, ..v }
    } else {
        v
    }
}

/// Moving down, in a window of `h` item rows: on the last visible row the
/// window scrolls down one line if more of the list is below it; elsewhere
/// the cursor advances, clamped to the last visible row.
pub open spec fn move_down_view(v: ClientView, h: nat) -> ClientView {
    let n = v.filtered.len();
    if n == 0 {
        v
    } else {
        let last_row = nat_sub(nat_min(h, nat_sub(n, v.offset)), 1);
        if v.cursor == last_row {
            if v.offset + h < n {
                ClientView { offset: (v.offset + 1) as nat, ..v }
            } else {
                v
            }
        } else {
            ClientView {
                cursor: nat_min(
                    (v.cursor + 1) as nat,
                    nat_min(nat_sub(nat_sub(n, v.offset), 1), nat_sub(h, 1)),
                ),
                ..v
            }
        }
    }
}

/// Making `q` the query: if it is empty or a valid pattern the filtered
/// list is recomputed and the viewport rewinds to the top; otherwise only
/// the query text changes.
pub open spec fn refilter_view(v: ClientView, q: Seq<char>) -> ClientView {
    if query_ok(q) {
        ClientView { query: q, filtered: filter_spec(v.lines, q), offset: 0, cursor: 0, ..v }
    } else {
        ClientView { query: q, ..v }
    }
}

/// Appending one character to the query.
pub open spec fn append_view(v: ClientView, c: char) -> ClientView {
    refilter_view(v, v.query.push(c))
}

/// Deleting the last character of the query; with an empty query nothing
/// changes.
pub open spec fn remove_view(v: ClientView) -> ClientView {
    if v.query.len() == 0 {
        v
    } else {
        refilter_view(v, v.query.drop_last())
    }
}

/// How one event, in a window of `h` item rows, transforms the state.
/// Enter, escape and ignored events leave the state as it is.
pub open spec fn step_view(v: ClientView, h: nat, e: Event) -> ClientView {
    match e {
        Event::Char(c) => append_view(v, c),
        Event::Backspace => remove_view(v),
        Event::Up => move_up_view(v),
        Event::Down => move_down_view(v, h),
        Event::Enter => v,
        Event::Esc => v,
        Event::Other => v,
    }
}

/// What one event answers: enter chooses the highlighted line when there is
/// one and otherwise ends the session like escape; everything else goes on.
pub open spec fn step_status(v: ClientView, e: Event) -> Status {
    match e {
        Event::Enter => if v.filtered.len() > 0 {
            Status::Selected(v.filtered[selected_index(v)])
        } else {
            Status::Escaped
        },
        Event::Esc => Status::Escaped,
        _ => Status::Continue,
    }
}

/// The viewport invariant for a window of `h` item rows: with a non-empty
/// filtered list of length `n`, the offset stays within `0 ..= max(0, n - h)`
/// and the cursor within `0 ..< min(h, n - offset)`; with an empty one both
/// sit at zero.
pub open spec fn viewport_wf(v: ClientView, h: nat) -> bool {
    if v.filtered.len() == 0 {
        v.offset == 0 && v.cursor == 0
    } else {
        &&& v.offset <= nat_sub(v.filtered.len(), h)
        &&& v.cursor < nat_min(h, nat_sub(v.filtered.len(), v.offset))
    }
}

/// A viewport rewound to the top satisfies the viewport invariant for every
/// window of at least one item row.
pub proof fn lemma_reset_viewport_wf(v: ClientView, h: nat)
    requires
        v.offset == 0,
        v.cursor == 0,
        1 <= h,
    ensures
        viewport_wf(v, h),
{
}

/// Moving up preserves the viewport invariant.
pub proof fn lemma_move_up_keeps_viewport_wf(v: ClientView, h: nat)
    requires
        viewport_wf(v, h),
        1 <= h,
    ensures
        viewport_wf(move_up_view(v), h),
{
}

/// Moving down preserves the viewport invariant.
pub proof fn lemma_move_down_keeps_viewport_wf(v: ClientView, h: nat)
    requires
        viewport_wf(v, h),
        1 <= h,
    ensures
        viewport_wf(move_down_view(v, h), h),
{
}

/// The state after a sequence of events, applied first to last, in a window
/// of `h` item rows.
pub open spec fn apply_events(v: ClientView, h: nat, events: Seq<Event>) -> ClientView
    decreases events.len(),
{
    if events.len() == 0 {
        v
    } else {
        apply_events(step_view(v, h, events.first()), h, events.drop_first())
    }
}

/// Whether every event of the sequence is a cursor move.
pub open spec fn all_moves(events: Seq<Event>) -> bool {
    forall|i: int|
        0 <= i < events.len() ==> (#[trigger] events[i]) == Event::Up || events[i] == Event::Down
}

/// Moves preserve the viewport invariant: after any finite sequence of
/// move-up and move-down events, a state satisfying the invariant still
/// satisfies it, for the same filtered list and window.
pub proof fn lemma_moves_keep_viewport_wf(v: ClientView, h: nat, events: Seq<Event>)
    requires
        viewport_wf(v, h),
        1 <= h,
        all_moves(events),
    ensures
        viewport_wf(apply_events(v, h, events), h),
    decreases events.len(),
{
    if events.len() > 0 {
        let v1 = step_view(v, h, events.first());
        match events.first() {
            Event::Up => lemma_move_up_keeps_viewport_wf(v, h),
            Event::Down => lemma_move_down_keeps_viewport_wf(v, h),
            _ => {},
        }
        assert(all_moves(events.drop_first())) by {
            assert(forall|i: int|
                0 <= i < events.drop_first().len() ==> (#[trigger] events.drop_first()[i])
                    == events[i + 1]);
        }
        lemma_moves_keep_viewport_wf(v1, h, events.drop_first());
    }
}

/// From the initial reset state, any finite sequence of move-up and
/// move-down events leaves the viewport invariant intact.
pub proof fn lemma_moves_from_reset_keep_viewport_wf(v: ClientView, h: nat, events: Seq<Event>)
    requires
        v.offset == 0,
        v.cursor == 0,
        1 <= h,
        all_moves(events),
    ensures
        viewport_wf(apply_events(v, h, events), h),
{
    lemma_reset_viewport_wf(v, h);
    lemma_moves_keep_viewport_wf(v, h, events);
}

/// A confirmed choice is the highlighted line of the filtered list, and so
/// one of the original source lines.
pub proof fn lemma_confirm_yields_source_line(v: ClientView)
    requires
        view_wf(v),
        v.filtered.len() > 0,
    ensures
        step_status(v, Event::Enter) == Status::Selected(v.filtered[selected_index(v)]),
        v.lines.contains(v.filtered[selected_index(v)]),
{
}

/// Confirming with an empty filtered list is the same as cancelling: the
/// answer and the state are those of the escape event.
pub proof fn lemma_confirm_empty_is_cancel(v: ClientView, h: nat)
    requires
        v.filtered.len() == 0,
    ensures
        step_status(v, Event::Enter) == step_status(v, Event::Esc),
        step_view(v, h, Event::Enter) == step_view(v, h, Event::Esc),
{
}

/// One interactive selection session over a fixed source list.
pub struct Client {
    prompt: String,
    y_offset: usize,
    lines: Vec<String>,
    filtered: Vec<String>,
    query: String,
    cursor: usize,
    offset: usize,
}

impl View for Client {
    type V = ClientView;

    closed spec fn view(&self) -> ClientView {
        ClientView {
            lines: self.lines@,
            filtered: self.filtered@,
            query: self.query@,
            prompt: self.prompt@,
            offset: self.offset as nat,
            cursor: self.cursor as nat,
        }
    }
}

impl Client {
    #[verifier::type_invariant]
    closed spec fn wf(&self) -> bool {
        &&& view_wf(self@)
        &&& self.y_offset == 1
    }

    /// Starts a session over `lines`: the query is empty, the filtered list
    /// is the whole source, and the viewport is at the top.
    pub fn new(lines: Vec<String>) -> (r: Client)
        ensures
            r@.lines == lines@,
            r@.filtered == lines@,
            r@.query == Seq::<char>::empty(),
            r@.prompt == "QUERY> "@,
            r@.offset == 0,
            r@.cursor == 0,
            view_wf(r@),
    {
        proof {
            broadcast use vstd::prelude::Seq::lemma_index_contains;

        }
        let filtered = clone_lines(&lines);
        Client {
            prompt: String::from_str("QUERY> "),
            y_offset: 1,
            lines,
            filtered,
            query: String::new(),
            cursor: 0,
            offset: 0,
        }
    }

    /// Makes `q` the query and re-filters; on an invalid pattern the
    /// filtered list and the viewport stay as they were.
    fn set_query(&mut self, q: String)
        ensures
            final(self)@ == refilter_view(old(self)@, q@),
            view_wf(final(self)@),
    {
        proof {
            use_type_invariant(&*self);
        }
        let r = filter(&self.lines, q.as_str());
        match r {
            Some(f) => {
                proof {
                    broadcast use vstd::prelude::Seq::lemma_index_contains;

                    if q@.len() > 0 {
                        lemma_filter_exact_matches(self.lines@, q@);
                    }
                }
                self.query = q;
                self.cursor = 0;
                self.offset = 0;
                self.filtered = f;
            },
            None => {
                self.query = q;
            },
        }
        proof {
            use_type_invariant(&*self);
        }
    }

    /// Appends `c` to the query and re-filters.  On a query that no longer
    /// compiles, the filtered list and the viewport stay as they were.
    pub fn append_query(&mut self, c: char)
        ensures
            final(self)@ == append_view(old(self)@, c),
            view_wf(final(self)@),
    {
        proof {
            use_type_invariant(&*self);
        }
        let mut q = String::new();
        std::mem::swap(&mut q, &mut self.query);
        crate::text::push_char(&mut q, c);
        self.set_query(q);
    }

    /// Deletes the last character of the query and re-filters; with an
    /// empty query this is a no-op.
    pub fn remove_query(&mut self)
        ensures
            final(self)@ == remove_view(old(self)@),
            view_wf(final(self)@),
    {
        proof {
            use_type_invariant(&*self);
        }
        if self.query.as_str().is_empty() {
            return ;
        }
        let mut q = String::new();
        std::mem::swap(&mut q, &mut self.query);
        let _ = crate::text::pop_char(&mut q);
        self.set_query(q);
    }

    /// Moves the highlight one row up; at offset 0, cursor 0 (the top of
    /// the list) this is a no-op.
    pub fn cursor_up(&mut self)
        ensures
            final(self)@ == move_up_view(old(self)@),
            old(self)@.offset == 0 && old(self)@.cursor == 0 ==> final(self)@ == old(self)@,
            view_wf(final(self)@),
    {
        proof {
            use_type_invariant(&*self);
        }
        if self.cursor == 0 {
            if self.offset > 0 {
                self.offset = self.offset - 1;
            }
        } else {
            self.cursor = self.cursor - 1;
        }
    }

    /// Moves the highlight one row down, in a terminal `height` rows tall
    /// of which one is the query row; on the last row of a list that fits
    /// entirely in the window the offset does not move.
    pub fn cursor_down(&mut self, height: usize)
        requires
            2 <= height,
        ensures
            final(self)@ == move_down_view(old(self)@, (height - 1) as nat),
            old(self)@.filtered.len() < height - 1 ==> final(self)@.offset == old(self)@.offset,
            view_wf(final(self)@),
    {
        proof {
            use_type_invariant(&*self);
        }
        let n: usize = self.filtered.len();
        if n == 0 {
            return ;
        }
        let h: usize = height - 1;
        let avail: usize = n - self.offset;
        let last_row: usize = (if h < avail {
            h
        } else {
            avail
        }) - 1;
        if self.cursor == last_row {
            if h < n && self.offset < n - h {
                self.offset = self.offset + 1;
            }
        } else {
            let cap1: usize = n - self.offset - 1;
            let cap2: usize = h - 1;
            let mut c: usize = self.cursor + 1;
            if c > cap1 {
                c = cap1;
            }
            if c > cap2 {
                c = cap2;
            }
            self.cursor = c;
        }
        proof {
            use_type_invariant(&*self);
        }
    }

    /// Applies one event in a terminal `height` rows tall: enter answers
    /// the highlighted line, or ends the session like escape when the
    /// filtered list is empty; escape cancels; the rest edit the query or
    /// move the viewport and the session goes on.
    pub fn handle_event(&mut self, height: usize, event: Event) -> (r: Status)
        requires
            2 <= height,
        ensures
            final(self)@ == step_view(old(self)@, (height - 1) as nat, event),
            r == step_status(old(self)@, event),
            view_wf(final(self)@),
    {
        proof {
            use_type_invariant(&*self);
        }
        match event {
            Event::Enter => {
                if self.filtered.len() > 0 {
                    Status::Selected(self.filtered[self.offset + self.cursor].clone())
                } else {
                    Status::Escaped
                }
            },
            Event::Esc => Status::Escaped,
            Event::Up => {
                self.cursor_up();
                Status::Continue
            },
            Event::Down => {
                self.cursor_down(height);
                Status::Continue
            },
            Event::Backspace => {
                self.remove_query();
                Status::Continue
            },
            Event::Char(c) => {
                self.append_query(c);
                Status::Continue
            },
            Event::Other => Status::Continue,
        }
    }

    /// The current query text.
    pub fn query_text(&self) -> (r: &str)
        ensures
            r@ == self@.query,
    {
        self.query.as_str()
    }

    /// The lines currently matching the query, in source order.
    pub fn filtered_lines(&self) -> (r: &Vec<String>)
        ensures
            r@ == self@.filtered,
    {
        &self.filtered
    }

    /// The source list the session was started with.
    pub fn source_lines(&self) -> (r: &Vec<String>)
        ensures
            r@ == self@.lines,
    {
        &self.lines
    }

    /// The index into the filtered list of the first visible row.
    pub fn viewport_offset(&self) -> (r: usize)
        ensures
            r == self@.offset,
    {
        self.offset
    }

    /// The row of the viewport holding the highlight.
    pub fn viewport_cursor(&self) -> (r: usize)
        ensures
            r == self@.cursor,
    {
        self.cursor
    }

    /// The prompt label shown before the query.
    pub fn query_prompt(&self) -> (r: &String)
        ensures
            r@ == self@.prompt,
    {
        &self.prompt
    }

    /// The filtered line at index `i`.
    pub fn filtered_line(&self, i: usize) -> (r: &str)
        requires
            i < self@.filtered.len(),
        ensures
            r@ == self@.filtered[i as int]@,
    {
        self.filtered[i].as_str()
    }

    /// The highlighted line, if the filtered list is not empty.
    pub fn selected(&self) -> (r: Option<String>)
        ensures
            self@.filtered.len() == 0 ==> r is None,
            self@.filtered.len() > 0 ==> r == Some(self@.filtered[selected_index(self@)]),
    {
        proof {
            use_type_invariant(&*self);
        }
        if self.filtered.len() > 0 {
            Some(self.filtered[self.offset + self.cursor].clone())
        } else {
            None
        }
    }
}

} // verus!
