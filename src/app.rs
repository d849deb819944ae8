use vstd::prelude::*;

verus! {

/// What an editor state means: its rows, the cursor and the quit flag.
pub struct BufferState {
    pub lines: Seq<Seq<char>>,
    pub cursor_x: nat,
    pub cursor_y: nat,
    pub should_quit: bool,
}

/// `n` space characters.
pub open spec fn spaces(n: nat) -> Seq<char> {
    Seq::new(n, |i: int| ' ')
}

/// The row after typing `c` at column `x`: put in place when the column lies
/// within the row or at its end, appended after padding with spaces otherwise.
pub open spec fn row_with_char(row: Seq<char>, x: nat, c: char) -> Seq<char> {
    if x <= row.len() {
        row.insert(x as int, c)
    } else {
        row + spaces((x - row.len()) as nat) + seq![c]
    }
}

/// The rows with empty rows added at the end so that row `y` exists.
pub open spec fn grown_to(lines: Seq<Seq<char>>, y: nat) -> Seq<Seq<char>> {
    if y < lines.len() {
        lines
    } else {
        lines + Seq::new((y + 1 - lines.len()) as nat, |i: int| Seq::<char>::empty())
    }
}

impl BufferState {
    /// One empty row, the cursor at its start.
    pub open spec fn initial() -> BufferState {
        BufferState { lines: seq![Seq::<char>::empty()], cursor_x: 0, cursor_y: 0, should_quit: false }
    }

    /// There is always at least one row.
    pub open spec fn well_formed(self) -> bool {
        self.lines.len() > 0
    }

    pub open spec fn with_cursor(self, x: nat, y: nat) -> BufferState {
        BufferState { lines: self.lines, cursor_x: x, cursor_y: y, should_quit: self.should_quit }
    }

    pub open spec fn with_lines(self, lines: Seq<Seq<char>>) -> BufferState {
        BufferState { lines, cursor_x: self.cursor_x, cursor_y: self.cursor_y, should_quit: self.should_quit }
    }

    pub open spec fn quitting(self) -> BufferState {
        BufferState { lines: self.lines, cursor_x: self.cursor_x, cursor_y: self.cursor_y, should_quit: true }
    }

    /// One column right, unless the column is already the largest one.
    pub open spec fn moved_right(self) -> BufferState {
        if self.cursor_x < usize::MAX {
            self.with_cursor(self.cursor_x + 1, self.cursor_y)
        } else {
            self
        }
    }

    /// One column left, unless the cursor is in the first column.
    pub open spec fn moved_left(self) -> BufferState {
        if self.cursor_x > 0 {
            self.with_cursor((self.cursor_x - 1) as nat, self.cursor_y)
        } else {
            self
        }
    }

    /// One row down, unless the row is already the largest one.
    pub open spec fn moved_down(self) -> BufferState {
        if self.cursor_y < usize::MAX {
            self.with_cursor(self.cursor_x, self.cursor_y + 1)
        } else {
            self
        }
    }

    /// One row up, unless the cursor is in the first row.
    pub open spec fn moved_up(self) -> BufferState {
        if self.cursor_y > 0 {
            self.with_cursor(self.cursor_x, (self.cursor_y - 1) as nat)
        } else {
            self
        }
    }

    /// Typing `c`: grow the rows up to the cursor's row, put `c` into that row
    /// at the cursor's column, and move right.
    pub open spec fn with_char(self, c: char) -> BufferState {
        let lines = grown_to(self.lines, self.cursor_y);
        let y = self.cursor_y as int;
        self.with_lines(lines.update(y, row_with_char(lines[y], self.cursor_x, c))).moved_right()
    }

    /// Backspace at the start of a row other than the first: the row is
    /// appended to the one above and removed, and the cursor goes to the
    /// joining point. Where the cursor's row does not exist, only the cursor
    /// moves up.
    pub open spec fn joined_up(self) -> BufferState {
        let y = self.cursor_y as int;
        if y < self.lines.len() {
            let above = self.lines[y - 1];
            BufferState {
                lines: self.lines.update(y - 1, above + self.lines[y]).remove(y),
                cursor_x: above.len(),
                cursor_y: (y - 1) as nat,
                should_quit: self.should_quit,
            }
        } else {
            self.moved_up()
        }
    }

    /// Backspace elsewhere: the character before the cursor goes, where there
    /// is one, and the cursor moves left.
    pub open spec fn char_removed(self) -> BufferState {
        let y = self.cursor_y as int;
        let x = self.cursor_x as int;
        if y < self.lines.len() && 0 < x <= self.lines[y].len() {
            self.with_lines(self.lines.update(y, self.lines[y].remove(x - 1))).moved_left()
        } else {
            self.moved_left()
        }
    }

    pub open spec fn backspaced(self) -> BufferState {
        if self.cursor_x == 0 && self.cursor_y != 0 {
            self.joined_up()
        } else {
            self.char_removed()
        }
    }

    /// Enter, on an existing row. At or past the row's end an empty row is
    /// added after the last one, and the column becomes the length of the row
    /// below. Within the row, the row is cut at the column, its tail becomes a
    /// new row just below, and the column becomes 0. Then the cursor moves
    /// down.
    pub open spec fn line_split(self) -> BufferState {
        let y = self.cursor_y as int;
        let row = self.lines[y];
        if self.cursor_x >= row.len() {
            let lines = self.lines.push(Seq::<char>::empty());
            let x: nat = if y + 1 < lines.len() { lines[y + 1].len() } else { 0 };
            self.with_lines(lines).with_cursor(x, self.cursor_y).moved_down()
        } else {
            let lines = self.lines.update(y, row.take(self.cursor_x as int)).insert(
                y + 1,
                row.skip(self.cursor_x as int),
            );
            self.with_lines(lines).with_cursor(0, self.cursor_y).moved_down()
        }
    }

    /// A click at screen cell (`x`, `y`), where row 0 and column 0 hold the
    /// frame: the cursor goes to (`x` - 1, `y` - 1), and to 0 from 0.
    pub open spec fn clicked(self, x: nat, y: nat) -> BufferState {
        self.with_cursor(
            if x != 0 { (x - 1) as nat } else { 0 },
            if y != 0 { (y - 1) as nat } else { 0 },
        )
    }
}

/// The rows as text: each row's characters followed by a line break.
pub open spec fn text_of(lines: Seq<Seq<char>>) -> Seq<char>
    decreases lines.len(),
{
    if lines.len() == 0 {
        Seq::empty()
    } else {
        text_of(lines.drop_last()) + lines.last() + seq!['\n']
    }
}

/// Relies on `String::push`: appends one character to the string.
#[verifier::external_body]
fn push_char(s: &mut String, c: char)
    ensures
        final(s)@ == old(s)@.push(c),
{
    s.push(c);
}

/// Pads `row` with spaces until it holds `len` characters.
fn pad_with_spaces(row: &mut Vec<char>, len: usize)
    requires
        old(row)@.len() <= len,
    ensures
        final(row)@ == old(row)@ + spaces((len - old(row)@.len()) as nat),
{
    let ghost start = row@;
    while row.len() < len
        invariant
            start.len() <= row@.len() <= len,
            row@ =~= start + spaces((row@.len() - start.len()) as nat),
        decreases len - row.len(),
    {
        row.push(' ');
    }
}

/// The editor's state: rows of characters, a cursor and a quit flag.
pub struct App {
    pub text: Vec<Vec<char>>,
    pub cursor_position_x: usize,
    pub cursor_position_y: usize,
    pub should_quit: bool,
}

impl View for App {
    type V = BufferState;

    open spec fn view(&self) -> BufferState {
        BufferState {
            lines: self.text@.map_values(|r: Vec<char>| r@),
            cursor_x: self.cursor_position_x as nat,
            cursor_y: self.cursor_position_y as nat,
            should_quit: self.should_quit,
        }
    }
}

impl Default for App {
    /// One empty row, the cursor at its start.
    fn default() -> (r: App)
        ensures
            r@ == BufferState::initial(),
    {
        let r = App { text: vec![Vec::new()], cursor_position_x: 0, cursor_position_y: 0, should_quit: false };
        assert(r@.lines =~= seq![Seq::<char>::empty()]);
        r
    }
}

impl App {
    /// The buffer holds at least one row.
    pub open spec fn wf(&self) -> bool {
        self@.well_formed()
    }

    /// One empty row, the cursor at its start.
    pub fn new() -> (r: App)
        ensures
            r@ == BufferState::initial(),
            r.wf(),
    {
        Self::default()
    }

    /// Called once per timer tick of the event loop; the buffer has nothing to do.
    pub fn tick(&self) {
    }

    /// Asks the event loop to stop.
    pub fn quit(&mut self)
        ensures
            final(self)@ == old(self)@.quitting(),
    {
        self.should_quit = true;
    }

    /// Moves right; the column is not held to the row's length.
    pub fn increase_cursor_position_x(&mut self)
        ensures
            final(self)@ == old(self)@.moved_right(),
    {
        if let Some(res) = self.cursor_position_x.checked_add(1) {
            self.cursor_position_x = res;
        }
    }

    /// Moves left, stopping at the first column.
    pub fn decrease_cursor_position_x(&mut self)
        ensures
            final(self)@ == old(self)@.moved_left(),
    {
        if let Some(res) = self.cursor_position_x.checked_sub(1) {
            self.cursor_position_x = res;
        }
    }

    /// Moves down; the row is not held to the number of rows.
    pub fn increase_cursor_position_y(&mut self)
        ensures
            final(self)@ == old(self)@.moved_down(),
    {
        if let Some(res) = self.cursor_position_y.checked_add(1) {
            self.cursor_position_y = res;
        }
    }

    /// Moves up, stopping at the first row.
    pub fn decrease_cursor_position_y(&mut self)
        ensures
            final(self)@ == old(self)@.moved_up(),
    {
        if let Some(res) = self.cursor_position_y.checked_sub(1) {
            self.cursor_position_y = res;
        }
    }

    /// Adds empty rows at the end until there are `len` rows.
    fn grow_rows(&mut self, len: usize)
        ensures
            final(self)@ == old(self)@.with_lines(
                if len <= old(self)@.lines.len() {
                    old(self)@.lines
                } else {
                    old(self)@.lines + Seq::new(
                        (len - old(self)@.lines.len()) as nat,
                        |i: int| Seq::<char>::empty(),
                    )
                },
            ),
    {
        let ghost start = self@.lines;
        while self.text.len() < len
            invariant
                self@ == old(self)@.with_lines(self@.lines),
                start == old(self)@.lines,
                start.len() <= self@.lines.len(),
                self@.lines.len() <= len || self@.lines.len() == start.len(),
                self@.lines.subrange(0, start.len() as int) == start,
                forall|i: int|
                    start.len() <= i < self.text@.len() ==> #[trigger] self.text@[i]@ == Seq::<char>::empty(),
            decreases len - self.text.len(),
        {
            let row: Vec<char> = Vec::new();
            self.text.push(row);
            assert(self@.lines.subrange(0, start.len() as int) =~= start);
        }
        proof {
            if len <= start.len() {
                assert(self@.lines =~= start);
            } else {
                assert(self@.lines =~= start + Seq::new(
                    (len - start.len()) as nat,
                    |i: int| Seq::<char>::empty(),
                ));
            }
        }
    }

    /// Types `character` at the cursor; see `BufferState::with_char`.
    pub fn add_character(&mut self, character: char)
        requires
            old(self).wf(),
            old(self).cursor_position_x < usize::MAX,
            old(self).cursor_position_y < usize::MAX,
        ensures
            final(self)@ == old(self)@.with_char(character),
            final(self).wf(),
    {
        let lines = self.text.len();
        if self.cursor_position_y >= lines - 1 {
            self.grow_rows(self.cursor_position_y + 1);
        }
        let ghost grown = self@.lines;
        assert(grown =~= grown_to(old(self)@.lines, old(self)@.cursor_y));
        let y = self.cursor_position_y;
        let x = self.cursor_position_x;
        let line_length = self.text[y].len();
        let ghost row = grown[y as int];
        if x == line_length {
            self.text[y].push(character);
            assert(self.text@[y as int]@ =~= row.insert(x as int, character));
        } else if x < line_length {
            self.text[y].insert(x, character);
        } else {
            pad_with_spaces(&mut self.text[y], x);
            self.text[y].push(character);
        }
        assert(self.text@[y as int]@ =~= row_with_char(row, x as nat, character));
        assert(self@.lines =~= grown.update(y as int, row_with_char(grown[y as int], x as nat, character)));
        self.increase_cursor_position_x();
    }

    /// Joins the cursor's row onto the one above; see `BufferState::joined_up`.
    fn save_line_remove(&mut self)
        requires
            old(self).cursor_position_y > 0,
        ensures
            final(self)@ == old(self)@.joined_up(),
    {
        if self.cursor_position_y < self.text.len() {
            let y = self.cursor_position_y;
            let ghost lines = self@.lines;
            let mut line_to_remove = self.text.remove(y);
            let previous_line_length = self.text[y - 1].len();
            self.text[y - 1].append(&mut line_to_remove);
            self.cursor_position_x = previous_line_length;
            assert(self@.lines =~= lines.update(y - 1, lines[y - 1] + lines[y as int]).remove(y as int));
        }
        self.decrease_cursor_position_y();
    }

    /// Removes the character before the cursor; see `BufferState::char_removed`.
    fn save_character_remove(&mut self)
        ensures
            final(self)@ == old(self)@.char_removed(),
    {
        if self.cursor_position_y < self.text.len() && self.cursor_position_x <= self.text[self.cursor_position_y].len()
            && self.cursor_position_x > 0 {
            let y = self.cursor_position_y;
            let ghost lines = self@.lines;
            self.text[y].remove(self.cursor_position_x - 1);
            assert(self@.lines =~= lines.update(y as int, lines[y as int].remove(self.cursor_position_x - 1)));
        }
        self.decrease_cursor_position_x();
    }

    /// Backspace; see `BufferState::backspaced`.
    pub fn remove_character(&mut self)
        ensures
            final(self)@ == old(self)@.backspaced(),
    {
        if self.cursor_position_x == 0 && self.cursor_position_y != 0 {
            self.save_line_remove();
        } else {
            self.save_character_remove();
        }
    }

    /// Enter; see `BufferState::line_split`. The cursor's row must exist.
    pub fn new_line(&mut self)
        requires
            old(self).cursor_position_y < old(self).text@.len(),
        ensures
            final(self)@ == old(self)@.line_split(),
    {
        let y = self.cursor_position_y;
        let ghost lines = self@.lines;
        proof {
            assert(self.text.len() == lines.len());
        }
        if self.cursor_position_x >= self.text[y].len() {
            let row: Vec<char> = Vec::new();
            self.text.push(row);
            assert(self@.lines =~= lines.push(Seq::<char>::empty()));
            self.cursor_position_x = if y + 1 < self.text.len() {
                self.text[y + 1].len()
            } else {
                0
            };
        } else {
            let for_new_line = self.text[y].split_off(self.cursor_position_x);
            self.text.insert(y + 1, for_new_line);
            assert(self@.lines =~= lines.update(y as int, lines[y as int].take(self.cursor_position_x as int)).insert(
                y + 1,
                lines[y as int].skip(self.cursor_position_x as int),
            ));
            self.cursor_position_x = 0;
        }
        self.increase_cursor_position_y();
    }

    /// The rows as text: each row's characters followed by a line break.
    pub fn to_text(&self) -> (r: String)
        ensures
            r@ == text_of(self@.lines),
    {
        let ghost lines = self@.lines;
        let mut r = String::new();
        let mut i: usize = 0;
        while i < self.text.len()
            invariant
                lines == self@.lines,
                i <= lines.len(),
                r@ == text_of(lines.take(i as int)),
            decreases self.text.len() - i,
        {
            let row = &self.text[i];
            let ghost before = r@;
            let mut j: usize = 0;
            while j < row.len()
                invariant
                    j <= row@.len(),
                    r@ == before + row@.take(j as int),
                decreases row.len() - j,
            {
                push_char(&mut r, row[j]);
                j += 1;
                assert(r@ =~= before + row@.take(j as int));
            }
            push_char(&mut r, '\n');
            assert(row@.take(j as int) =~= lines[i as int]);
            assert(lines.take(i + 1).drop_last() =~= lines.take(i as int));
            i += 1;
        }
        assert(lines.take(i as int) =~= lines);
        r
    }

    /// Puts the cursor under a click; see `BufferState::clicked`.
    pub fn mouse_click(&mut self, x: usize, y: usize)
        ensures
            final(self)@ == old(self)@.clicked(x as nat, y as nat),
    {
        if x != 0 {
            self.cursor_position_x = x - 1;
        } else {
            self.cursor_position_x = 0;
        }
        if y != 0 {
            self.cursor_position_y = y - 1;
        } else {
            self.cursor_position_y = 0;
        }
    }
}

} // verus!
