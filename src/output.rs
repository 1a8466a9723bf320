//! The frame renderer: the exact text of one redraw of the screen.
use vstd::prelude::*;
use crate::ansi::{
    ClearKind, clear, clear_code, hide_code, hide_cursor, move_to, move_to_code, show_code,
    show_cursor,
};
use crate::contents::EditorContents;
use crate::cursor::{CursorController, Direction, ViewModel, min};
use crate::document::EditorRows;

verus! {

/// The version shown in the welcome banner.
pub const VERSION: &'static str = "0.1.0";

/// The title of the welcome banner.
pub open spec fn welcome_title() -> Seq<char> {
    "Pound Editor --- Version "@ + VERSION@
}

pub open spec fn spaces(n: int) -> Seq<char> {
    Seq::new(n as nat, |_i: int| ' ')
}

/// The banner on a screen `cols` wide: the title cut to the screen width,
/// centred, with the empty-row marker at the left edge when there is room.
pub open spec fn banner(cols: int) -> Seq<char> {
    let t = welcome_title();
    let w = if t.len() > cols { t.subrange(0, cols) } else { t };
    let padding = (cols - w.len()) / 2;
    (if padding != 0 { seq!['~'] + spaces(padding - 1) } else { Seq::empty() }) + w
}

/// The part of `line` that a window starting at column `offset` and
/// `cols` wide shows.
pub open spec fn visible_part(line: Seq<char>, offset: int, cols: int) -> Seq<char> {
    let len = min(if line.len() > offset { line.len() - offset } else { 0 }, cols);
    if len == 0 {
        Seq::empty()
    } else {
        line.subrange(offset, offset + len)
    }
}

/// What screen row `i` shows, before its line clear.
pub open spec fn row_text(doc: Seq<Seq<char>>, v: ViewModel, i: int) -> Seq<char> {
    let file_row = i + v.row_offset;
    if file_row >= doc.len() {
        if doc.len() == 0 && i == v.screen_rows / 3 {
            banner(v.screen_columns)
        } else {
            seq!['~']
        }
    } else {
        visible_part(doc[file_row], v.column_offset, v.screen_columns)
    }
}

/// Screen row `i` in full: its text, a clear to the end of the line, and a
/// line break unless it is the last row.
pub open spec fn row_output(doc: Seq<Seq<char>>, v: ViewModel, i: int) -> Seq<char> {
    row_text(doc, v, i) + clear_code(ClearKind::UntilNewLine) + if i < v.screen_rows - 1 {
        seq!['\r', '\n']
    } else {
        Seq::empty()
    }
}

/// The first `k` screen rows.
pub open spec fn rows_output(doc: Seq<Seq<char>>, v: ViewModel, k: int) -> Seq<char>
    decreases k,
{
    if k <= 0 {
        Seq::empty()
    } else {
        rows_output(doc, v, k - 1) + row_output(doc, v, k - 1)
    }
}

/// One whole frame: hide the cursor, clear the screen, home the cursor,
/// draw every row, place the cursor on its screen cell and show it.
pub open spec fn frame(doc: Seq<Seq<char>>, v: ViewModel) -> Seq<char> {
    hide_code() + clear_code(ClearKind::All) + move_to_code(0, 0) + rows_output(
        doc,
        v,
        v.screen_rows,
    ) + move_to_code((v.cursor_x - v.column_offset) as nat, (v.cursor_y - v.row_offset) as nat)
        + show_code()
}

/// The screen: its size, the frame buffer, the cursor and the document.
pub struct Output {
    pub window_size: (usize, usize),
    pub editor_contents: EditorContents,
    pub cursor_controller: CursorController,
    pub editor_rows: EditorRows,
}

impl Output {
    /// The screen size fits a terminal's cell addresses, and the cursor
    /// state is well formed over the document.
    pub open spec fn wf(&self) -> bool {
        &&& self.cursor_controller@.wf(self.editor_rows@)
        &&& self.cursor_controller.screen_columns == self.window_size.0
        &&& self.cursor_controller.screen_rows == self.window_size.1
        &&& self.window_size.0 <= u16::MAX
        &&& self.window_size.1 <= u16::MAX
    }

    /// A screen of `window_size.0` columns and `window_size.1` rows over
    /// `editor_rows`, with the cursor at the start of the document.
    pub fn new(window_size: (usize, usize), editor_rows: EditorRows) -> (r: Output)
        requires
            0 < window_size.0 <= u16::MAX,
            0 < window_size.1 <= u16::MAX,
        ensures
            r.wf(),
            r.window_size == window_size,
            r.editor_rows@ == editor_rows@,
            r.editor_contents@ == Seq::<char>::empty(),
            r.cursor_controller@ == (ViewModel {
                cursor_x: 0,
                cursor_y: 0,
                screen_columns: window_size.0 as int,
                screen_rows: window_size.1 as int,
                row_offset: 0,
                column_offset: 0,
            }),
    {
        Output {
            window_size,
            editor_contents: EditorContents::new(),
            cursor_controller: CursorController::new(window_size),
            editor_rows,
        }
    }

    /// Applies a navigation command to the cursor.
    pub fn move_cursor(&mut self, direction: Direction)
        requires
            old(self).wf(),
        ensures
            final(self).wf(),
            final(self).cursor_controller@ == old(self).cursor_controller@.moved(
                old(self).editor_rows@,
                direction,
            ),
            final(self).editor_rows@ == old(self).editor_rows@,
            final(self).editor_contents@ == old(self).editor_contents@,
            final(self).window_size == old(self).window_size,
    {
        self.cursor_controller.move_cursor(direction, &self.editor_rows);
        proof {
            crate::cursor::lemma_moved_wf(
                old(self).cursor_controller@,
                self.editor_rows@,
                direction,
            );
        }
    }
}

/// Appends the welcome banner for a screen `screen_columns` wide.
fn push_banner(contents: &mut EditorContents, screen_columns: usize)
    ensures
        final(contents)@ == old(contents)@ + banner(screen_columns as int),
{
    let mut welcome = String::from_str("Pound Editor --- Version ");
    welcome.append(VERSION);
    let title = welcome.as_str();
    let title_len = title.unicode_len();
    let shown_len = if title_len > screen_columns { screen_columns } else { title_len };
    let shown = title.substring_char(0, shown_len);
    proof {
        assert(title@ == welcome_title());
        assert(shown@ == (if welcome_title().len() > screen_columns {
            welcome_title().subrange(0, screen_columns as int)
        } else {
            welcome_title()
        }));
    }
    let ghost start = contents@;
    let mut padding = (screen_columns - shown_len) / 2;
    let ghost lead: Seq<char> = Seq::empty();
    if padding != 0 {
        contents.push('~');
        padding = padding - 1;
        proof {
            lead = seq!['~'];
        }
    }
    let mut j: usize = 0;
    while j < padding
        invariant
            j <= padding,
            contents@ == start + lead + spaces(j as int),
        decreases padding - j,
    {
        contents.push(' ');
        j = j + 1;
        proof {
            assert(spaces(j as int) =~= spaces(j - 1).push(' '));
            assert(contents@ =~= start + lead + spaces(j as int));
        }
    }
    contents.push_str(shown);
    proof {
        assert(lead + spaces(padding as int) =~= (if (screen_columns - shown_len) / 2 != 0 {
            seq!['~'] + spaces((screen_columns - shown_len) / 2 - 1)
        } else {
            Seq::empty()
        }));
        assert(contents@ =~= start + banner(screen_columns as int));
    }
}

/// Appends what a window starting at column `offset` and `cols` wide shows
/// of `row`.
fn push_visible(contents: &mut EditorContents, row: &str, offset: usize, cols: usize)
    ensures
        final(contents)@ == old(contents)@ + visible_part(row@, offset as int, cols as int),
{
    let row_len = row.unicode_len();
    let rest = if row_len > offset { row_len - offset } else { 0 };
    let len = if rest < cols { rest } else { cols };
    let start = if len == 0 { 0 } else { offset };
    contents.push_str(row.substring_char(start, start + len));
    proof {
        assert(contents@ =~= old(contents)@ + visible_part(row@, offset as int, cols as int));
    }
}

impl Output {
    /// Appends every screen row to the frame buffer.
    pub fn draw_rows(&mut self)
        requires
            old(self).wf(),
            old(self).cursor_controller@.cursor_visible(),
        ensures
            final(self).editor_contents@ == old(self).editor_contents@ + rows_output(
                old(self).editor_rows@,
                old(self).cursor_controller@,
                old(self).window_size.1 as int,
            ),
            final(self).cursor_controller == old(self).cursor_controller,
            final(self).editor_rows == old(self).editor_rows,
            final(self).window_size == old(self).window_size,
    {
        let screen_rows = self.window_size.1;
        let screen_columns = self.window_size.0;
        let number_of_rows = self.editor_rows.number_of_rows();
        let ghost v = self.cursor_controller@;
        let ghost doc = self.editor_rows@;
        let ghost start = self.editor_contents@;
        let mut i: usize = 0;
        while i < screen_rows
            invariant
                self.wf(),
                v == self.cursor_controller@,
                doc == self.editor_rows@,
                self.cursor_controller == old(self).cursor_controller,
                self.editor_rows == old(self).editor_rows,
                self.window_size == old(self).window_size,
                screen_rows == v.screen_rows,
                screen_columns == v.screen_columns,
                number_of_rows == doc.len(),
                v.row_offset <= doc.len(),
                i <= screen_rows,
                self.editor_contents@ == start + rows_output(doc, v, i as int),
            decreases screen_rows - i,
        {
            let ghost before = self.editor_contents@;
            let row_offset = self.cursor_controller.row_offset;
            if i >= number_of_rows - row_offset {
                if number_of_rows == 0 && i == screen_rows / 3 {
                    push_banner(&mut self.editor_contents, screen_columns);
                } else {
                    self.editor_contents.push('~');
                }
            } else {
                let file_row = i + row_offset;
                let row = self.editor_rows.get_row(file_row);
                push_visible(
                    &mut self.editor_contents,
                    row,
                    self.cursor_controller.column_offset,
                    screen_columns,
                );
            }
            proof {
                assert(self.editor_contents@ =~= before + row_text(doc, v, i as int));
            }
            let code = clear(ClearKind::UntilNewLine);
            self.editor_contents.push_str(code.as_str());
            if i < screen_rows - 1 {
                self.editor_contents.push_str("\r\n");
                proof {
                    reveal_strlit("\r\n");
                }
            }
            proof {
                assert(self.editor_contents@ =~= before + row_output(doc, v, i as int));
                assert(rows_output(doc, v, i + 1) == rows_output(doc, v, i as int) + row_output(
                    doc,
                    v,
                    i as int,
                ));
                assert(self.editor_contents@ =~= start + rows_output(doc, v, i + 1));
            }
            i = i + 1;
        }
    }
}

impl Output {
    /// Scrolls the window to the cursor, then builds one whole frame and
    /// hands it out together with anything queued before it; the buffer is
    /// left empty.
    pub fn refresh_screen(&mut self) -> (r: String)
        requires
            old(self).wf(),
        ensures
            final(self).wf(),
            final(self).cursor_controller@ == old(self).cursor_controller@.scrolled(),
            final(self).cursor_controller@.invariants(final(self).editor_rows@),
            final(self).editor_rows@ == old(self).editor_rows@,
            final(self).window_size == old(self).window_size,
            final(self).editor_contents@ == Seq::<char>::empty(),
            r@ == old(self).editor_contents@ + frame(
                final(self).editor_rows@,
                final(self).cursor_controller@,
            ),
    {
        self.cursor_controller.scroll();
        proof {
            crate::cursor::lemma_scroll_shows_cursor(
                old(self).cursor_controller@,
                self.editor_rows@,
            );
        }
        let ghost start = self.editor_contents@;
        let hide = hide_cursor();
        self.editor_contents.push_str(hide.as_str());
        let clear_all = clear(ClearKind::All);
        self.editor_contents.push_str(clear_all.as_str());
        let home = move_to(0, 0);
        self.editor_contents.push_str(home.as_str());
        let ghost head = self.editor_contents@;
        self.draw_rows();
        let cursor_x = self.cursor_controller.cursor_x - self.cursor_controller.column_offset;
        let cursor_y = self.cursor_controller.cursor_y - self.cursor_controller.row_offset;
        let place = move_to(cursor_x as u16, cursor_y as u16);
        self.editor_contents.push_str(place.as_str());
        let show = show_cursor();
        self.editor_contents.push_str(show.as_str());
        proof {
            assert(self.editor_contents@ =~= start + frame(
                self.editor_rows@,
                self.cursor_controller@,
            ));
        }
        self.editor_contents.flush()
    }
}

/// Refreshing the screen twice with nothing done in between gives the same
/// frame twice: the first refresh's scroll leaves nothing for the second
/// to move, and the frame depends on the document and the state alone.
pub proof fn lemma_refresh_repeats(doc: Seq<Seq<char>>, v: ViewModel)
    requires
        v.wf(doc),
    ensures
        v.scrolled().scrolled() == v.scrolled(),
        frame(doc, v.scrolled().scrolled()) == frame(doc, v.scrolled()),
{
    crate::cursor::lemma_scroll_idempotent(v);
}

} // verus!
