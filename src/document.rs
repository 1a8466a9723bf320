//! The document: an ordered, fixed sequence of text lines.
use vstd::prelude::*;

verus! {

/// The lines of the file being viewed, each without its line terminator.
pub struct EditorRows {
    pub row_contents: Vec<String>,
}

impl View for EditorRows {
    type V = Seq<Seq<char>>;

    open spec fn view(&self) -> Seq<Seq<char>> {
        self.row_contents@.map_values(|s: String| s@)
    }
}

/// The number of columns that line `y` of `doc` spans, or 0 where the
/// document has no such line.
pub open spec fn row_len(doc: Seq<Seq<char>>, y: int) -> int {
    if 0 <= y < doc.len() {
        doc[y].len() as int
    } else {
        0
    }
}

impl EditorRows {
    /// An empty document, as shown when no file is named.
    pub fn new() -> (r: EditorRows)
        ensures
            r@ == Seq::<Seq<char>>::empty(),
    {
        let r = EditorRows { row_contents: Vec::new() };
        assert(r@ =~= Seq::<Seq<char>>::empty());
        r
    }

    /// A document holding the given lines, in order.
    pub fn from_lines(lines: Vec<String>) -> (r: EditorRows)
        ensures
            r@.len() == lines@.len(),
            forall|i: int| 0 <= i < lines@.len() ==> #[trigger] r@[i] == lines@[i]@,
    {
        EditorRows { row_contents: lines }
    }

    pub fn number_of_rows(&self) -> (n: usize)
        ensures
            n == self@.len(),
    {
        self.row_contents.len()
    }

    pub fn get_row(&self, at: usize) -> (r: &str)
        requires
            at < self@.len(),
        ensures
            r@ == self@[at as int],
    {
        self.row_contents[at].as_str()
    }

    /// The number of characters on line `at`.
    pub fn row_length(&self, at: usize) -> (n: usize)
        requires
            at < self@.len(),
        ensures
            n == row_len(self@, at as int),
    {
        self.get_row(at).unicode_len()
    }
}

/// `line` without one carriage return at its end, if it has one.
pub open spec fn strip_cr(line: Seq<char>) -> Seq<char> {
    if line.len() > 0 && line.last() == '\r' {
        line.drop_last()
    } else {
        line
    }
}

/// Reading `text` from the left: the lines ended so far by a `'\n'`, each
/// without its terminator, and the characters of the line still open.
pub open spec fn split_lines(text: Seq<char>) -> (Seq<Seq<char>>, Seq<char>)
    decreases text.len(),
{
    if text.len() == 0 {
        (Seq::empty(), Seq::empty())
    } else {
        let (done, open) = split_lines(text.drop_last());
        if text.last() == '\n' {
            (done.push(strip_cr(open)), Seq::empty())
        } else {
            (done, open.push(text.last()))
        }
    }
}

/// The lines of `text`: split at each `'\n'` or `"\r\n"`, with no empty line
/// after a final terminator.
pub open spec fn lines_of(text: Seq<char>) -> Seq<Seq<char>> {
    let (done, open) = split_lines(text);
    if open.len() == 0 {
        done
    } else {
        done.push(open)
    }
}

/// The first `end` characters of `chars` as a string.
fn string_of(chars: &Vec<char>, end: usize) -> (r: String)
    requires
        end <= chars@.len(),
    ensures
        r@ == chars@.subrange(0, end as int),
{
    let mut s = String::new();
    let mut i: usize = 0;
    while i < end
        invariant
            i <= end <= chars@.len(),
            s@ == chars@.subrange(0, i as int),
        decreases end - i,
    {
        s.push(chars[i]);
        i = i + 1;
        proof {
            assert(s@ =~= chars@.subrange(0, i as int));
        }
    }
    s
}

impl EditorRows {
    /// The document whose lines are those of the text `text`.
    pub fn from_text(text: &[char]) -> (r: EditorRows)
        ensures
            r@ == lines_of(text@),
    {
        let mut row_contents: Vec<String> = Vec::new();
        let mut open: Vec<char> = Vec::new();
        let mut i: usize = 0;
        while i < text.len()
            invariant
                i <= text@.len(),
                row_contents@.map_values(|s: String| s@) == split_lines(
                    text@.subrange(0, i as int),
                ).0,
                open@ == split_lines(text@.subrange(0, i as int)).1,
            decreases text@.len() - i,
        {
            let ghost prefix = text@.subrange(0, i as int);
            let c = text[i];
            if c == '\n' {
                let n = open.len();
                let end = if n > 0 && open[n - 1] == '\r' { n - 1 } else { n };
                let line = string_of(&open, end);
                proof {
                    assert(line@ =~= strip_cr(open@));
                }
                row_contents.push(line);
                open = Vec::new();
            } else {
                open.push(c);
            }
            i = i + 1;
            proof {
                let next = text@.subrange(0, i as int);
                assert(next.drop_last() =~= prefix);
                assert(next.last() == c);
                assert(row_contents@.map_values(|s: String| s@) =~= split_lines(next).0);
                assert(open@ =~= split_lines(next).1);
            }
        }
        proof {
            assert(text@.subrange(0, text@.len() as int) =~= text@);
        }
        let ghost done = row_contents@.map_values(|s: String| s@);
        if open.len() > 0 {
            let last = string_of(&open, open.len());
            assert(last@ =~= open@);
            row_contents.push(last);
            proof {
                assert(row_contents@.map_values(|s: String| s@) =~= done.push(open@));
            }
        }
        let r = EditorRows { row_contents };
        proof {
            assert(r@ =~= lines_of(text@));
        }
        r
    }
}

} // verus!
