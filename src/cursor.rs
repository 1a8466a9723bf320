//! The viewport state: the logical cursor, the screen size and the scroll
//! offsets, with the cursor-movement and minimal-scroll rules.
use vstd::prelude::*;
use crate::document::{EditorRows, row_len};

verus! {

/// A navigation command.
#[derive(Clone, Copy, Debug, PartialEq, Eq, Structural)]
pub enum Direction {
    Up,
    Down,
    Left,
    Right,
    /// Jump to the first document row.
    Home,
    /// Jump to the last document row.
    End,
}

/// The viewport state as mathematical integers.
pub struct ViewModel {
    pub cursor_x: int,
    pub cursor_y: int,
    pub screen_columns: int,
    pub screen_rows: int,
    pub row_offset: int,
    pub column_offset: int,
}

pub open spec fn min(a: int, b: int) -> int {
    if a <= b { a } else { b }
}

impl ViewModel {
    /// The cursor rests on an existing position of `doc`: on a line, at most
    /// one past its last character, or at column 0 of the row just past the
    /// last line.
    pub open spec fn cursor_in_doc(self, doc: Seq<Seq<char>>) -> bool {
        &&& 0 <= self.cursor_y <= doc.len()
        &&& 0 <= self.cursor_x <= row_len(doc, self.cursor_y)
    }

    /// The cursor lies inside the visible window.
    pub open spec fn cursor_visible(self) -> bool {
        &&& 0 <= self.column_offset <= self.cursor_x
        &&& self.cursor_x < self.column_offset + self.screen_columns
        &&& 0 <= self.row_offset <= self.cursor_y
        &&& self.cursor_y < self.row_offset + self.screen_rows
    }

    /// The screen has at least one row and one column.
    pub open spec fn screen_ok(self) -> bool {
        self.screen_columns > 0 && self.screen_rows > 0
    }

    /// The state between commands: the cursor is on the document and the
    /// offsets are non-negative.
    pub open spec fn wf(self, doc: Seq<Seq<char>>) -> bool {
        &&& self.screen_ok()
        &&& self.cursor_in_doc(doc)
        &&& self.row_offset >= 0
        &&& self.column_offset >= 0
    }

    /// All three viewport invariants.
    pub open spec fn invariants(self, doc: Seq<Seq<char>>) -> bool {
        self.wf(doc) && self.cursor_visible()
    }

    /// The cursor position after `d`, before the column is clamped.
    pub open spec fn step(self, doc: Seq<Seq<char>>, d: Direction) -> (int, int) {
        let x = self.cursor_x;
        let y = self.cursor_y;
        let n = doc.len() as int;
        match d {
            Direction::Up => if y > 0 { (x, y - 1) } else { (x, y) },
            Direction::Down => if y < n { (x, y + 1) } else { (x, y) },
            Direction::Left => if x != 0 {
                (x - 1, y)
            } else if y > 0 {
                (row_len(doc, y - 1), y - 1)
            } else {
                (x, y)
            },
            Direction::Right => if y < n {
                if x < row_len(doc, y) {
                    (x + 1, y)
                } else if x == row_len(doc, y) {
                    (0, y + 1)
                } else {
                    (x, y)
                }
            } else {
                (x, y)
            },
            Direction::Home => (x, 0),
            Direction::End => (x, if n > 0 { n - 1 } else { 0 }),
        }
    }

    /// The state after `d`: the step, then the column clamped to the
    /// length of the row it landed on.
    pub open spec fn moved(self, doc: Seq<Seq<char>>, d: Direction) -> ViewModel {
        let (x, y) = self.step(doc, d);
        ViewModel { cursor_x: min(x, row_len(doc, y)), cursor_y: y, ..self }
    }

    /// The state after minimal scrolling: each offset moves toward the
    /// cursor only as far as needed to bring it into the window.
    pub open spec fn scrolled(self) -> ViewModel {
        let co = min(self.column_offset, self.cursor_x);
        let co2 = if self.cursor_x >= co + self.screen_columns {
            self.cursor_x - self.screen_columns + 1
        } else {
            co
        };
        let ro = min(self.row_offset, self.cursor_y);
        let ro2 = if self.cursor_y >= ro + self.screen_rows {
            self.cursor_y - self.screen_rows + 1
        } else {
            ro
        };
        ViewModel { column_offset: co2, row_offset: ro2, ..self }
    }
}

/// The cursor and the scrolled window over the document.
pub struct CursorController {
    pub cursor_x: usize,
    pub cursor_y: usize,
    pub screen_columns: usize,
    pub screen_rows: usize,
    pub row_offset: usize,
    pub column_offset: usize,
}

impl View for CursorController {
    type V = ViewModel;

    open spec fn view(&self) -> ViewModel {
        ViewModel {
            cursor_x: self.cursor_x as int,
            cursor_y: self.cursor_y as int,
            screen_columns: self.screen_columns as int,
            screen_rows: self.screen_rows as int,
            row_offset: self.row_offset as int,
            column_offset: self.column_offset as int,
        }
    }
}

impl CursorController {
    /// A controller for a screen of `window_size.0` columns and
    /// `window_size.1` rows, with the cursor and the window at the origin.
    pub fn new(window_size: (usize, usize)) -> (r: CursorController)
        ensures
            r.cursor_x == 0,
            r.cursor_y == 0,
            r.screen_columns == window_size.0,
            r.screen_rows == window_size.1,
            r.row_offset == 0,
            r.column_offset == 0,
    {
        CursorController {
            cursor_x: 0,
            cursor_y: 0,
            screen_columns: window_size.0,
            screen_rows: window_size.1,
            row_offset: 0,
            column_offset: 0,
        }
    }

    /// Moves the window just far enough to show the cursor.
    pub fn scroll(&mut self)
        requires
            old(self)@.screen_ok(),
        ensures
            final(self)@ == old(self)@.scrolled(),
    {
        if self.column_offset > self.cursor_x {
            self.column_offset = self.cursor_x;
        }
        if self.cursor_x - self.column_offset >= self.screen_columns {
            self.column_offset = self.cursor_x - self.screen_columns + 1;
        }
        if self.row_offset > self.cursor_y {
            self.row_offset = self.cursor_y;
        }
        if self.cursor_y - self.row_offset >= self.screen_rows {
            self.row_offset = self.cursor_y - self.screen_rows + 1;
        }
    }

    /// Applies one navigation command, then clamps the column to the row
    /// the cursor landed on.
    pub fn move_cursor(&mut self, direction: Direction, editor_rows: &EditorRows)
        requires
            old(self)@.cursor_in_doc(editor_rows@),
        ensures
            final(self)@ == old(self)@.moved(editor_rows@, direction),
    {
        let number_of_rows = editor_rows.number_of_rows();
        match direction {
            Direction::Up => {
                if self.cursor_y > 0 {
                    self.cursor_y = self.cursor_y - 1;
                }
            },
            Direction::Down => {
                if self.cursor_y < number_of_rows {
                    self.cursor_y = self.cursor_y + 1;
                }
            },
            Direction::Left => {
                if self.cursor_x != 0 {
                    self.cursor_x = self.cursor_x - 1;
                } else if self.cursor_y > 0 {
                    self.cursor_y = self.cursor_y - 1;
                    self.cursor_x = editor_rows.row_length(self.cursor_y);
                }
            },
            Direction::Right => {
                if self.cursor_y < number_of_rows {
                    let len = editor_rows.row_length(self.cursor_y);
                    if self.cursor_x < len {
                        self.cursor_x = self.cursor_x + 1;
                    } else if self.cursor_x == len {
                        self.cursor_y = self.cursor_y + 1;
                        self.cursor_x = 0;
                    }
                }
            },
            Direction::End => {
                self.cursor_y = if number_of_rows > 0 { number_of_rows - 1 } else { 0 };
            },
            Direction::Home => {
                self.cursor_y = 0;
            },
        }
        let row_len = if self.cursor_y < number_of_rows {
            editor_rows.row_length(self.cursor_y)
        } else {
            0
        };
        if self.cursor_x > row_len {
            self.cursor_x = row_len;
        }
    }
}

/// The state after each command of `cmds` in turn, each followed by a scroll.
pub open spec fn navigate(v: ViewModel, doc: Seq<Seq<char>>, cmds: Seq<Direction>) -> ViewModel
    decreases cmds.len(),
{
    if cmds.len() == 0 {
        v
    } else {
        navigate(v, doc, cmds.drop_last()).moved(doc, cmds.last()).scrolled()
    }
}

/// A command keeps the cursor on the document and leaves the screen and the
/// offsets as they were.
pub proof fn lemma_moved_wf(v: ViewModel, doc: Seq<Seq<char>>, d: Direction)
    requires
        v.wf(doc),
    ensures
        v.moved(doc, d).wf(doc),
        v.moved(doc, d).screen_columns == v.screen_columns,
        v.moved(doc, d).screen_rows == v.screen_rows,
        v.moved(doc, d).row_offset == v.row_offset,
        v.moved(doc, d).column_offset == v.column_offset,
{
}

/// Scrolling leaves the cursor where it is and brings it into the window.
pub proof fn lemma_scroll_shows_cursor(v: ViewModel, doc: Seq<Seq<char>>)
    requires
        v.wf(doc),
    ensures
        v.scrolled().invariants(doc),
        v.scrolled().cursor_x == v.cursor_x,
        v.scrolled().cursor_y == v.cursor_y,
{
}

/// Scrolling twice is scrolling once.
pub proof fn lemma_scroll_idempotent(v: ViewModel)
    requires
        v.screen_ok(),
        v.cursor_x >= 0,
        v.cursor_y >= 0,
    ensures
        v.scrolled().scrolled() == v.scrolled(),
{
}

/// From any well-formed state, after every command of any sequence and the
/// scroll that follows it, the cursor is on the document and inside the
/// window.
pub proof fn lemma_navigation_keeps_invariants(
    v: ViewModel,
    doc: Seq<Seq<char>>,
    cmds: Seq<Direction>,
)
    requires
        v.wf(doc),
    ensures
        navigate(v, doc, cmds).wf(doc),
        cmds.len() > 0 ==> navigate(v, doc, cmds).invariants(doc),
        forall|k: int|
            1 <= k <= cmds.len() ==> #[trigger] navigate(v, doc, cmds.take(k)).invariants(doc),
    decreases cmds.len(),
{
    if cmds.len() > 0 {
        let prev = cmds.drop_last();
        lemma_navigation_keeps_invariants(v, doc, prev);
        let w = navigate(v, doc, prev);
        lemma_moved_wf(w, doc, cmds.last());
        lemma_scroll_shows_cursor(w.moved(doc, cmds.last()), doc);
        assert forall|k: int| 1 <= k <= cmds.len() implies #[trigger] navigate(
            v,
            doc,
            cmds.take(k),
        ).invariants(doc) by {
            if k == cmds.len() {
                assert(cmds.take(k) =~= cmds);
            } else {
                assert(cmds.take(k) =~= prev.take(k));
            }
        }
    }
}

/// Left and Right keep the column within the line the cursor lands on; Up
/// and Down keep the column where the new line allows it and clamp it to
/// the line's end otherwise.
pub proof fn lemma_clamping(v: ViewModel, doc: Seq<Seq<char>>, d: Direction)
    requires
        v.cursor_in_doc(doc),
    ensures
        (d == Direction::Left || d == Direction::Right) ==> 0 <= v.moved(doc, d).cursor_x
            <= row_len(doc, v.moved(doc, d).cursor_y),
        (d == Direction::Up || d == Direction::Down) ==> v.moved(doc, d).cursor_x == min(
            v.cursor_x,
            row_len(doc, v.moved(doc, d).cursor_y),
        ),
{
}

/// The column offset that scrolling picks is, of all offsets that show the
/// cursor, the one nearest to the offset before; the same holds of rows.
pub proof fn lemma_scroll_minimal(v: ViewModel, co: int, ro: int)
    requires
        v.screen_ok(),
        v.cursor_x >= 0,
        v.cursor_y >= 0,
        v.column_offset >= 0,
        v.row_offset >= 0,
        0 <= co <= v.cursor_x < co + v.screen_columns,
        0 <= ro <= v.cursor_y < ro + v.screen_rows,
    ensures
        abs(v.scrolled().column_offset - v.column_offset) <= abs(co - v.column_offset),
        abs(v.scrolled().row_offset - v.row_offset) <= abs(ro - v.row_offset),
{
}

pub open spec fn abs(a: int) -> int {
    if a < 0 { -a } else { a }
}

} // verus!
