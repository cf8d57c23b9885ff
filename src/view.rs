use crate::buffer::{file_records, Buffer};
use crate::command::{Command, Direction};
use crate::geometry::{Location, Position, Size};
use crate::line::{col_of, cols, glyph_of, glyphs_of, render_range, Glyph};
use vstd::prelude::*;
use vstd::view::View as _;

verus! {

/// Everything a view holds, as plain values.
pub struct ViewState {
    pub size: Size,
    pub lines: Seq<Seq<Glyph>>,
    pub need_redraw: bool,
    pub location: Location,
    pub offset: Position,
}

pub open spec fn sat_sub(a: usize, b: usize) -> usize {
    if a >= b {
        (a - b) as usize
    } else {
        0
    }
}

pub open spec fn sat_add(a: usize, b: usize) -> usize {
    if a + b <= usize::MAX {
        (a + b) as usize
    } else {
        usize::MAX
    }
}

pub open spec fn min_usize(a: usize, b: usize) -> usize {
    if a <= b {
        a
    } else {
        b
    }
}

/// Graphemes in line `i`; none past the last line.
pub open spec fn line_len(lines: Seq<Seq<Glyph>>, i: int) -> nat {
    if 0 <= i < lines.len() {
        lines[i].len()
    } else {
        0
    }
}

/// The location with its grapheme index pulled back to the end of its line.
pub open spec fn snap_grapheme(lines: Seq<Seq<Glyph>>, loc: Location) -> Location {
    Location {
        grapheme_index: min_usize(
            line_len(lines, loc.line_index as int) as usize,
            loc.grapheme_index,
        ),
        line_index: loc.line_index,
    }
}

pub open spec fn moved_up(lines: Seq<Seq<Glyph>>, loc: Location, step: usize) -> Location {
    snap_grapheme(
        lines,
        Location { line_index: sat_sub(loc.line_index, step), grapheme_index: loc.grapheme_index },
    )
}

/// Down by `step` lines, never past the line after the last one.
pub open spec fn moved_down(lines: Seq<Seq<Glyph>>, loc: Location, step: usize) -> Location {
    let snapped = snap_grapheme(
        lines,
        Location { line_index: sat_add(loc.line_index, step), grapheme_index: loc.grapheme_index },
    );
    Location {
        line_index: min_usize(snapped.line_index, lines.len() as usize),
        grapheme_index: snapped.grapheme_index,
    }
}

pub open spec fn to_line_end(lines: Seq<Seq<Glyph>>, loc: Location) -> Location {
    Location {
        grapheme_index: line_len(lines, loc.line_index as int) as usize,
        line_index: loc.line_index,
    }
}

pub open spec fn to_line_start(loc: Location) -> Location {
    Location { grapheme_index: 0, line_index: loc.line_index }
}

/// One grapheme left; from the start of a line, to the end of the one above.
pub open spec fn moved_left(lines: Seq<Seq<Glyph>>, loc: Location) -> Location {
    if loc.grapheme_index > 0 {
        Location { grapheme_index: (loc.grapheme_index - 1) as usize, line_index: loc.line_index }
    } else {
        to_line_end(lines, moved_up(lines, loc, 1))
    }
}

/// One grapheme right; from the end of a line, to the start of the one below.
pub open spec fn moved_right(lines: Seq<Seq<Glyph>>, loc: Location) -> Location {
    if loc.grapheme_index < line_len(lines, loc.line_index as int) {
        Location { grapheme_index: (loc.grapheme_index + 1) as usize, line_index: loc.line_index }
    } else {
        to_line_start(moved_down(lines, loc, 1))
    }
}

/// Where a move in `direction` takes the cursor; a page is one line less than
/// the viewport's height.
pub open spec fn moved(
    lines: Seq<Seq<Glyph>>,
    loc: Location,
    direction: Direction,
    height: usize,
) -> Location {
    match direction {
        Direction::Up => moved_up(lines, loc, 1),
        Direction::Down => moved_down(lines, loc, 1),
        Direction::Left => moved_left(lines, loc),
        Direction::Right => moved_right(lines, loc),
        Direction::PageUp => moved_up(lines, loc, sat_sub(height, 1)),
        Direction::PageDown => moved_down(lines, loc, sat_sub(height, 1)),
        Direction::Home => to_line_start(loc),
        Direction::End => to_line_end(lines, loc),
    }
}

/// The document cell of a location: its line, and the columns taken by the
/// graphemes before it.
pub open spec fn doc_position(lines: Seq<Seq<Glyph>>, loc: Location) -> Position {
    Position {
        col: if loc.line_index < lines.len() {
            let line = lines[loc.line_index as int];
            if loc.grapheme_index <= line.len() {
                col_of(line, loc.grapheme_index as int) as usize
            } else {
                cols(line) as usize
            }
        } else {
            0
        },
        row: loc.line_index,
    }
}

/// Whether `to` lies outside `[offset, offset + extent)`.
pub open spec fn out_of_view(offset: usize, to: usize, extent: usize) -> bool {
    to < offset || to >= offset + extent
}

/// The offset that brings `to` into `[offset, offset + extent)`: `to` itself
/// when it lies before, so that `to` is the last of `extent` when it lies after.
pub open spec fn scrolled_to(offset: usize, to: usize, extent: usize) -> usize {
    if to < offset {
        to
    } else if to >= offset + extent {
        (to - extent + 1) as usize
    } else {
        offset
    }
}

impl ViewState {
    pub open spec fn wf(self) -> bool {
        &&& self.lines.len() <= isize::MAX
        &&& forall|i: int| 0 <= i < self.lines.len() ==> (#[trigger] self.lines[i]).len() <= isize::MAX
        &&& self.location.line_index <= self.lines.len()
        &&& self.location.grapheme_index <= line_len(self.lines, self.location.line_index as int)
    }

    /// The cell of the cursor in the document.
    pub open spec fn position(self) -> Position {
        doc_position(self.lines, self.location)
    }

    /// The offset moved, on each axis, so that the cursor is in view.
    pub open spec fn scrolled(self) -> ViewState {
        let p = self.position();
        ViewState {
            offset: Position {
                col: scrolled_to(self.offset.col, p.col, self.size.width),
                row: scrolled_to(self.offset.row, p.row, self.size.height),
            },
            need_redraw: self.need_redraw || out_of_view(self.offset.col, p.col, self.size.width)
                || out_of_view(self.offset.row, p.row, self.size.height),
            ..self
        }
    }

    pub open spec fn after_move(self, direction: Direction) -> ViewState {
        ViewState {
            location: moved(self.lines, self.location, direction, self.size.height),
            ..self
        }.scrolled()
    }

    /// The lines with `c` put in at the cursor.
    pub open spec fn lines_with(self, c: char) -> Seq<Seq<Glyph>> {
        let l = self.location.line_index as int;
        if l < self.lines.len() {
            self.lines.update(
                l,
                self.lines[l].insert(self.location.grapheme_index as int, glyph_of(seq![c])),
            )
        } else {
            self.lines.push(seq![glyph_of(seq![c])])
        }
    }

    /// Whether the line under the cursor, or the document, can take one more.
    pub open spec fn room_to_insert(self) -> bool {
        if self.location.line_index < self.lines.len() {
            self.lines[self.location.line_index as int].len() < isize::MAX
        } else {
            self.lines.len() < isize::MAX
        }
    }

    /// `c` put in at the cursor, and the cursor right after it.
    pub open spec fn after_insert(self, c: char) -> ViewState {
        ViewState {
            lines: self.lines_with(c),
            location: moved_right(self.lines_with(c), self.location),
            need_redraw: true,
            ..self
        }
    }

    pub open spec fn after_resize(self, size: Size) -> ViewState {
        ViewState { size, need_redraw: true, ..self }
    }

    pub open spec fn after_command(self, command: Command) -> ViewState {
        match command {
            Command::Quit => self,
            Command::Move(direction) => self.after_move(direction),
            Command::Insert(c) => self.after_insert(c),
            Command::Resize(size) => self.after_resize(size),
        }
    }

    /// Whether a render draws anything.
    pub open spec fn draws(self) -> bool {
        self.need_redraw && self.size.width > 0 && self.size.height > 0
    }

    pub open spec fn after_render(self) -> ViewState {
        if self.draws() {
            ViewState { need_redraw: false, ..self }
        } else {
            self
        }
    }

    /// The text of screen row `r`.
    pub open spec fn row_text(self, r: int, title: Seq<char>) -> Seq<char> {
        let idx = self.offset.row + r;
        if idx < self.lines.len() {
            render_range(
                self.lines[idx],
                self.offset.col as int,
                self.offset.col + self.size.width,
            )
        } else if r == self.size.height / 3 * 2 && self.lines.len() == 0 {
            welcome_text(self.size.width, title)
        } else {
            seq!['~']
        }
    }

    /// The rows a render draws, top to bottom.
    pub open spec fn frame(self, title: Seq<char>) -> Seq<Seq<char>> {
        if self.draws() {
            Seq::new(self.size.height as nat, |r: int| self.row_text(r, title))
        } else {
            seq![]
        }
    }
}

pub open spec fn spaces(n: nat) -> Seq<char> {
    Seq::new(n, |i: int| ' ')
}

/// The banner `title` centred in `width` cells after a leading `~`; a bare `~`
/// where it does not fit.
pub open spec fn welcome_text(width: usize, title: Seq<char>) -> Seq<char> {
    if width == 0 {
        seq![' ']
    } else if width <= title.len() {
        seq!['~']
    } else {
        seq!['~'] + spaces(((width - title.len()) / 2) as nat) + title
    }
}

/// The banner's text for a program and its version.
pub open spec fn title_of(name: Seq<char>, version: Seq<char>) -> Seq<char> {
    name + " -- version "@ + version
}

/// What the screen shows: a window onto a document, and a cursor in it.
pub struct View {
    size: Size,
    buffer: Buffer,
    need_redraw: bool,
    location: Location,
    offset: Position,
}

impl View {
    pub closed spec fn state(&self) -> ViewState {
        ViewState {
            size: self.size,
            lines: self.buffer@,
            need_redraw: self.need_redraw,
            location: self.location,
            offset: self.offset,
        }
    }

    pub open spec fn wf(&self) -> bool {
        self.state().wf()
    }

    /// An empty document in a viewport of `size`, waiting to be drawn.
    pub fn default(size: Size) -> (r: View)
        ensures
            r.state() == (ViewState {
                size,
                lines: seq![],
                need_redraw: true,
                location: Location { grapheme_index: 0, line_index: 0 },
                offset: Position { col: 0, row: 0 },
            }),
            r.wf(),
    {
        View {
            size,
            buffer: Buffer::new(),
            need_redraw: true,
            location: Location { grapheme_index: 0, line_index: 0 },
            offset: Position { col: 0, row: 0 },
        }
    }

    proof fn lemma_buffer_wf(&self)
        requires
            self.wf(),
        ensures
            self.buffer.wf(),
    {
        assert forall|i: int| 0 <= i < self.buffer.lines@.len() implies (
        #[trigger] self.buffer.lines@[i]).wf() by {
            assert(self.buffer@[i] == self.buffer.lines@[i]@);
        }
    }

    /// Carries out a command; quitting is left to the caller.
    pub fn command_handler(&mut self, command: Command)
        requires
            old(self).wf(),
            command is Insert ==> old(self).state().room_to_insert(),
        ensures
            final(self).state() == old(self).state().after_command(command),
            final(self).wf(),
    {
        match command {
            Command::Quit => {},
            Command::Move(direction) => self.move_location(direction),
            Command::Insert(c) => self.insert(c),
            Command::Resize(size) => self.resize(size),
        }
    }

    /// Appends the lines of a file's text to the document.
    pub fn load_file(&mut self, contents: &str)
        requires
            old(self).wf(),
            old(self).state().lines.len() + contents@.len() <= isize::MAX,
        ensures
            final(self).state() == (ViewState {
                lines: old(self).state().lines + file_records(contents@).map_values(
                    |r: Seq<char>| glyphs_of(r),
                ),
                ..old(self).state()
            }),
            final(self).wf(),
    {
        proof {
            self.lemma_buffer_wf();
        }
        self.buffer.load_file(contents);
        assert(self.state().lines.len() >= old(self).state().lines.len());
        assert forall|i: int| 0 <= i < self.state().lines.len() implies (
        #[trigger] self.state().lines[i]).len() <= isize::MAX by {
            assert(self.buffer.lines@[i].wf());
        }
        assert(self.location.grapheme_index <= line_len(
            self.state().lines,
            self.location.line_index as int,
        )) by {
            if self.location.line_index < old(self).state().lines.len() {
                assert(self.state().lines[self.location.line_index as int] == old(
                    self,
                ).state().lines[self.location.line_index as int]);
            }
        }
    }

    /// Takes a new viewport size, and asks for a redraw.
    pub fn resize(&mut self, size: Size)
        ensures
            final(self).state() == old(self).state().after_resize(size),
            old(self).wf() ==> final(self).wf(),
    {
        self.size = size;
        self.need_redraw = true;
    }

    pub fn size(&self) -> (r: Size)
        ensures
            r == self.state().size,
    {
        self.size
    }

    pub fn location(&self) -> (r: Location)
        ensures
            r == self.state().location,
    {
        self.location
    }

    pub fn offset(&self) -> (r: Position)
        ensures
            r == self.state().offset,
    {
        self.offset
    }

    pub fn needs_redraw(&self) -> (r: bool)
        ensures
            r == self.state().need_redraw,
    {
        self.need_redraw
    }

    /// Graphemes in line `line_index`; none past the last line.
    fn line_length(&self, line_index: usize) -> (r: usize)
        ensures
            r == line_len(self.state().lines, line_index as int),
    {
        if line_index < self.buffer.lines.len() {
            self.buffer.lines[line_index].grapheme_len()
        } else {
            0
        }
    }

    /// Renders the viewport: the text of each screen row, top to bottom, or
    /// nothing when no redraw is due or the viewport has no cells.
    pub fn render(&mut self, name: &str, version: &str) -> (rows: Vec<String>)
        requires
            old(self).wf(),
        ensures
            rows@.map_values(|r: String| r@) == old(self).state().frame(title_of(name@, version@)),
            final(self).state() == old(self).state().after_render(),
            final(self).wf(),
    {
        let ghost st = self.state();
        let ghost title = title_of(name@, version@);
        let mut rows: Vec<String> = Vec::new();
        if !self.need_redraw {
            assert(rows@.map_values(|r: String| r@) =~= st.frame(title));
            return rows;
        }
        let Size { height, width } = self.size;
        if height == 0 || width == 0 {
            assert(rows@.map_values(|r: String| r@) =~= st.frame(title));
            return rows;
        }
        proof {
            self.lemma_buffer_wf();
        }
        let msg_row = height / 3;
        let offset_row = self.offset.row;
        let n = self.buffer.lines.len();
        let mut row: usize = 0;
        while row < height
            invariant
                st == self.state(),
                title == title_of(name@, version@),
                self.wf(),
                self.buffer.wf(),
                st.draws(),
                height == st.size.height,
                width == st.size.width,
                msg_row == height / 3,
                offset_row == st.offset.row,
                n == st.lines.len(),
                row <= height,
                rows@.len() == row,
                forall|j: int| 0 <= j < row ==> (#[trigger] rows@[j])@ == st.row_text(j, title),
            decreases height - row,
        {
            if offset_row < n && row < n - offset_row {
                let left = self.offset.col;
                let right = left.saturating_add(width);
                let line = &self.buffer.lines[row + offset_row];
                assert(line@ == st.lines[row + offset_row]);
                let text = line.get_graphems(left..right);
                proof {
                    if left + width > usize::MAX {
                        crate::line::lemma_cols_bound(line@);
                        crate::line::lemma_render_far_end(
                            line@,
                            left as int,
                            right as int,
                            left + width,
                        );
                    }
                }
                assert(text@ == st.row_text(row as int, title));
                rows.push(text);
            } else if row == msg_row * 2 && self.buffer.is_empty() {
                let banner = Self::welcome_message(width, name, version);
                assert(banner@ == st.row_text(row as int, title));
                rows.push(banner);
            } else {
                let tilde = String::from_str("~");
                proof {
                    reveal_strlit("~");
                }
                assert(tilde@ =~= seq!['~']);
                assert(tilde@ == st.row_text(row as int, title));
                rows.push(tilde);
            }
            row += 1;
        }
        self.need_redraw = false;
        assert(rows@.map_values(|r: String| r@) =~= st.frame(title));
        rows
    }

    /// The banner for an empty document: `name -- version version`, centred in
    /// `width` cells after a `~`.
    fn welcome_message(width: usize, name: &str, version: &str) -> (r: String)
        ensures
            r@ == welcome_text(width, title_of(name@, version@)),
            width > 0 ==> r@.len() <= width,
    {
        if width == 0 {
            let r = String::from_str(" ");
            proof {
                reveal_strlit(" ");
            }
            assert(r@ =~= seq![' ']);
            return r;
        }
        let mut msg = String::from_str(name);
        msg.append(" -- version ");
        msg.append(version);
        let len = msg.as_str().unicode_len();
        if width <= len {
            let r = String::from_str("~");
            proof {
                reveal_strlit("~");
            }
            assert(r@ =~= seq!['~']);
            return r;
        }
        let padding = (width - len) / 2;
        let mut ret = String::from_str("~");
        proof {
            reveal_strlit("~");
        }
        let mut i: usize = 0;
        while i < padding
            invariant
                i <= padding,
                ret@ =~= seq!['~'] + spaces(i as nat),
            decreases padding - i,
        {
            crate::line::push_char(&mut ret, ' ');
            i += 1;
            assert(ret@ =~= seq!['~'] + spaces(i as nat));
        }
        ret.append(msg.as_str());
        ret
    }

    /// Carries out a cursor move, then scrolls the cursor into view.
    pub fn move_location(&mut self, direction: Direction)
        requires
            old(self).wf(),
        ensures
            final(self).state() == old(self).state().after_move(direction),
            final(self).wf(),
    {
        let Size { height, .. } = self.size;
        match direction {
            Direction::Up => self.move_up(1),
            Direction::Down => self.move_down(1),
            Direction::Left => self.move_left(),
            Direction::Right => self.move_right(),
            Direction::PageUp => self.move_up(height.saturating_sub(1)),
            Direction::PageDown => self.move_down(height.saturating_sub(1)),
            Direction::Home => self.move_to_line_start(),
            Direction::End => self.move_to_line_end(),
        }
        self.scroll_screen();
    }

    fn move_up(&mut self, step: usize)
        requires
            old(self).wf(),
        ensures
            final(self).state() == (ViewState {
                location: moved_up(old(self).state().lines, old(self).state().location, step),
                ..old(self).state()
            }),
            final(self).wf(),
    {
        self.location.line_index = self.location.line_index.saturating_sub(step);
        self.snap_to_valid_grapheme();
    }

    fn move_down(&mut self, step: usize)
        requires
            old(self).wf(),
        ensures
            final(self).state() == (ViewState {
                location: moved_down(old(self).state().lines, old(self).state().location, step),
                ..old(self).state()
            }),
            final(self).wf(),
    {
        self.location.line_index = self.location.line_index.saturating_add(step);
        self.snap_to_valid_grapheme();
        self.snap_to_valid_line();
    }

    fn move_left(&mut self)
        requires
            old(self).wf(),
        ensures
            final(self).state() == (ViewState {
                location: moved_left(old(self).state().lines, old(self).state().location),
                ..old(self).state()
            }),
            final(self).wf(),
    {
        if self.location.grapheme_index > 0 {
            self.location.grapheme_index -= 1;
        } else {
            self.move_up(1);
            self.move_to_line_end();
        }
    }

    fn move_right(&mut self)
        requires
            old(self).wf(),
        ensures
            final(self).state() == (ViewState {
                location: moved_right(old(self).state().lines, old(self).state().location),
                ..old(self).state()
            }),
            final(self).wf(),
    {
        let line_len = self.line_length(self.location.line_index);
        if self.location.grapheme_index < line_len {
            self.location.grapheme_index += 1;
        } else {
            self.move_down(1);
            self.move_to_line_start();
        }
    }

    fn move_to_line_end(&mut self)
        requires
            old(self).wf(),
        ensures
            final(self).state() == (ViewState {
                location: to_line_end(old(self).state().lines, old(self).state().location),
                ..old(self).state()
            }),
            final(self).wf(),
    {
        self.location.grapheme_index = self.line_length(self.location.line_index);
    }

    fn move_to_line_start(&mut self)
        requires
            old(self).wf(),
        ensures
            final(self).state() == (ViewState {
                location: to_line_start(old(self).state().location),
                ..old(self).state()
            }),
            final(self).wf(),
    {
        self.location.grapheme_index = 0;
    }

    /// Pulls the grapheme index back to the end of the cursor's line.
    fn snap_to_valid_grapheme(&mut self)
        ensures
            final(self).state() == (ViewState {
                location: snap_grapheme(old(self).state().lines, old(self).state().location),
                ..old(self).state()
            }),
    {
        let len = self.line_length(self.location.line_index);
        if len < self.location.grapheme_index {
            self.location.grapheme_index = len;
        }
    }

    /// Pulls the line index back to the line after the last one.
    fn snap_to_valid_line(&mut self)
        ensures
            final(self).state() == (ViewState {
                location: Location {
                    line_index: min_usize(
                        old(self).state().location.line_index,
                        old(self).state().lines.len() as usize,
                    ),
                    ..old(self).state().location
                },
                ..old(self).state()
            }),
    {
        let total = self.buffer.total_lines();
        if total < self.location.line_index {
            self.location.line_index = total;
        }
    }

    /// Puts `c` in at the cursor and moves the cursor past it.
    fn insert(&mut self, c: char)
        requires
            old(self).wf(),
            old(self).state().room_to_insert(),
        ensures
            final(self).state() == old(self).state().after_insert(c),
            final(self).wf(),
    {
        proof {
            self.lemma_buffer_wf();
        }
        self.buffer.insert_at(self.location, c);
        assert(self.state().lines =~= old(self).state().lines_with(c));
        self.move_right();
        self.need_redraw = true;
    }

    /// The document cell of the cursor.
    fn loc_to_pos(&self) -> (r: Position)
        requires
            self.wf(),
        ensures
            r == self.state().position(),
            r.col < usize::MAX,
    {
        proof {
            self.lemma_buffer_wf();
        }
        let row = self.location.line_index;
        let col = if row < self.buffer.lines.len() {
            self.buffer.lines[row].width_until(self.location.grapheme_index)
        } else {
            0
        };
        Position { col, row }
    }

    /// Moves the offset so that the cursor is in view.
    fn scroll_screen(&mut self)
        requires
            old(self).wf(),
        ensures
            final(self).state() == old(self).state().scrolled(),
            final(self).wf(),
    {
        let Position { col, row } = self.loc_to_pos();
        self.scroll_horizontal(col);
        self.scroll_vertical(row);
    }

    fn scroll_horizontal(&mut self, to: usize)
        requires
            to < usize::MAX,
        ensures
            final(self).state() == (ViewState {
                offset: Position {
                    col: scrolled_to(old(self).state().offset.col, to, old(self).state().size.width),
                    ..old(self).state().offset
                },
                need_redraw: old(self).state().need_redraw || out_of_view(
                    old(self).state().offset.col,
                    to,
                    old(self).state().size.width,
                ),
                ..old(self).state()
            }),
    {
        let Size { width, .. } = self.size;
        let out_of_bound = if to < self.offset.col {
            self.offset.col = to;
            true
        } else if to - self.offset.col >= width {
            self.offset.col = to - width + 1;
            true
        } else {
            false
        };
        self.need_redraw = self.need_redraw || out_of_bound;
    }

    fn scroll_vertical(&mut self, to: usize)
        requires
            to < usize::MAX,
        ensures
            final(self).state() == (ViewState {
                offset: Position {
                    row: scrolled_to(old(self).state().offset.row, to, old(self).state().size.height),
                    ..old(self).state().offset
                },
                need_redraw: old(self).state().need_redraw || out_of_view(
                    old(self).state().offset.row,
                    to,
                    old(self).state().size.height,
                ),
                ..old(self).state()
            }),
    {
        let Size { height, .. } = self.size;
        let out_of_bound = if to < self.offset.row {
            self.offset.row = to;
            true
        } else if to - self.offset.row >= height {
            self.offset.row = to - height + 1;
            true
        } else {
            false
        };
        self.need_redraw = self.need_redraw || out_of_bound;
    }

    /// The screen cell of the cursor: its document cell less the offset, each
    /// coordinate held at 0 where the offset has passed it.
    pub fn caret_position(&self) -> (r: Position)
        requires
            self.wf(),
        ensures
            r == (Position {
                col: sat_sub(self.state().position().col, self.state().offset.col),
                row: sat_sub(self.state().position().row, self.state().offset.row),
            }),
    {
        let pos = self.loc_to_pos();
        Position {
            col: pos.col.saturating_sub(self.offset.col),
            row: pos.row.saturating_sub(self.offset.row),
        }
    }
}

/// Rendering twice with nothing in between draws at most once: after a render
/// that drew, no redraw is due, and the second render draws nothing and changes
/// nothing.
pub proof fn lemma_render_twice(st: ViewState, title: Seq<char>)
    ensures
        st.draws() ==> !st.after_render().need_redraw,
        st.after_render().frame(title) == Seq::<Seq<char>>::empty(),
        st.after_render().after_render() == st.after_render(),
{
}

} // verus!
